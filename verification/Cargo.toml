[package]
name = "ten_ten_one"
version = "0.1.0"
edition = "2021"
publish = false

[dependencies]
rust_decimal = "1.26"
bitcoin = "0.29"
lightning = "0.0.111"
lightning-invoice = "0.19"
bdk = { version = "0.23", default-features = false }
serde = { version = "1", features = ["derive"] }
tokio = { version = "1", features = ["time"] }
http-api-problem = "*"
anyhow = "1"
tracing = "0.1"
