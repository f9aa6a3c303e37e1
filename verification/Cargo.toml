[package]
name = "corky"
version = "0.1.0"
edition = "2021"
publish = false

[dependencies]
clap = { version = "4", features = ["derive"] }
clap_complete = "4"
inquire = "*"
libc = "0.2"
