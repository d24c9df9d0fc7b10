[package]
name = "memory_logger"
version = "0.1.0"
edition = "2021"
publish = false

[dependencies]
flume = "*"
log = "*"
regex = "*"
