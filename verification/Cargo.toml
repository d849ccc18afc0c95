[package]
name = "graphene_style"
version = "0.1.0"
edition = "2021"
publish = false

[dependencies]
glam = { version = "=0.34.1", features = ["serde"] }
serde = { version = "=1.0.229", features = ["derive"] }
