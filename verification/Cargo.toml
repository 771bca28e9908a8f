[package]
name = "option_payoff"
version = "0.1.0"
edition = "2021"
publish = false

[dependencies]
chrono = "0.4"
expiration_date = "*"
financial_types = "*"
option_type = "*"
positive = "*"
rust_decimal = { version = "1", features = ["maths"] }
rust_decimal_macros = "1"
serde = { version = "1", features = ["derive"] }
