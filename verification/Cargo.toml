[package]
name = "wally"
version = "0.1.0"
edition = "2021"
publish = false

[dependencies]
serde_json = "1"
getrandom = "0.3"
ctrlc = { version = "3", features = ["termination"] }
libc = "0.2"
