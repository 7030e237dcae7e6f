[package]
name = "wxr_validator"
version = "0.1.0"
edition = "2021"
publish = false

[dependencies]
quick-xml = "0.22"
reqwest = { version = "0.11", features = ["blocking"] }
clap = { version = "4", features = ["derive"] }
