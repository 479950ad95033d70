[package]
name = "login_negotiation"
version = "0.1.0"
edition = "2021"
publish = false

[dependencies]
anyhow = "1"
console_error_panic_hook = "0.1"
dioxus = "0.4"
dioxus-logger = "0.4"
dioxus-router = "0.4"
dioxus-web = "0.4"
log = "0.4"
matrix-sdk = { version = "0.6", default-features = false, features = ["rustls-tls"] }
reqwest = { version = "0.11", features = ["json"] }
serde = { version = "1", features = ["derive"] }
url = "2"
