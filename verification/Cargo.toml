[package]
name = "nova_verifier"
version = "0.1.0"
edition = "2021"
publish = false

[dependencies]
pasta_curves = "*"
postcard = { version = "*", features = ["alloc"] }
serde = { version = "*", features = ["derive"] }

[dev-dependencies]
hex = "*"
