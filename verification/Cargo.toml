[package]
name = "sensirion_uart_sensorbridge"
version = "0.1.0"
edition = "2021"
publish = false

[dependencies]
byteorder = "1"
rust-shdlc-driver = "*"
thiserror = "*"
tokio = { version = "1", features = ["sync", "rt", "macros"] }
