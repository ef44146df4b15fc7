[package]
name = "protocols_handler"
version = "0.1.0"
edition = "2021"
publish = false

[dependencies]
futures = "0.1"
tokio-io = "0.1"
tokio-timer = "0.2"
void = "1"
