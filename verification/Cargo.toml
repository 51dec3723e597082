[package]
name = "gilrs"
version = "0.1.0"
edition = "2021"
publish = false

[dependencies]
uuid = "1"
winapi = "0.2"
xinput = "*"
