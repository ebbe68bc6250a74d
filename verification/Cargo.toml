[package]
name = "request_logging"
version = "0.1.0"
edition = "2021"
publish = false

[dependencies]
itertools = "*"
time = "0.1"
iron = "*"
router = "*"
