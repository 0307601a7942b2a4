[package]
name = "jwt_errors"
version = "0.1.0"
edition = "2021"
publish = false

[dependencies]
base64 = "*"
ring = "*"
serde_json = "*"
