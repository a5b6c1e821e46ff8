[package]
name = "connpool"
version = "0.1.0"
edition = "2021"
publish = false

[dependencies]
tokio-postgres = "*"
deadpool = "*"
tokio = { version = "*", features = ["rt"] }
log = "*"
async-trait = "*"
