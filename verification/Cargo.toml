[package]
name = "minicoro_awaiters"
version = "0.1.0"
edition = "2021"
publish = false

[dependencies]
atomic-waker = "*"
awaiter-trait = "*"
minicoroutine = "*"
