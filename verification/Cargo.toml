[package]
name = "ddd"
version = "0.1.0"
edition = "2021"
publish = false

[dependencies]
uuid = { version = "*", features = ["v4"] }
chrono = "*"
serde = { version = "*", features = ["derive"] }
axum = "*"
validator = { version = "*", features = ["derive"] }
syn = { version = "*", features = ["full"] }
utoipa = "*"
iso_currency = "*"
rust_decimal = "*"
async-trait = "*"
