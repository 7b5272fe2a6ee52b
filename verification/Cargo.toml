[package]
name = "type_prettifier"
version = "0.1.0"
edition = "2021"
publish = false

[dependencies]
pest = "2"
pest_derive = "2"
clap = { version = "4", features = ["derive"] }
