[package]
name = "opaque_auth"
version = "0.1.0"
edition = "2021"
publish = false

[dependencies]
opaque-ke = { version = "=3.0.0", features = ["argon2"] }
argon2 = "=0.5.3"
generic-array = "=0.14.9"
base64 = "=0.21.7"
rand = { version = "0.8", default-features = false, features = ["getrandom"] }
serde = { version = "=1.0.229", features = ["derive"] }
tsify = "=0.4.5"
wasm-bindgen = "=0.2.129"
