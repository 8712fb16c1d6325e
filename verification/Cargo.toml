[package]
name = "qchat"
version = "0.1.0"
edition = "2021"
publish = false

[dependencies]
shlex = "1.3"
convert_case = "0.6"
which = "6"
rand = "0.8"
uuid = { version = "1", features = ["v4"] }
