[package]
name = "termprompt"
version = "0.1.0"
edition = "2021"
publish = false

[dependencies]
console = "*"
tabled = "*"
term_size = "*"
tokio = { version = "*", features = ["rt"] }
