[package]
name = "typekit"
version = "0.1.0"
edition = "2021"
publish = false

[dependencies]
async-trait = "0.1"
chrono = "0.4"
serde = "1"
