[package]
name = "minidumper-child"
version = "0.1.0"
edition = "2021"
publish = false

[dependencies]
crash-handler = "*"
minidumper = "*"
thiserror = "1"
uuid = { version = "1", features = ["v4"] }
