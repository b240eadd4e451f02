[package]
name = "tantivy_record"
version = "0.1.0"
edition = "2021"
publish = false

[dependencies]
tantivy = "=0.26.2"
rust_decimal = "=1.43.0"
url = "=2.5.8"
uuid = "=1.29.0"
chrono = { version = "=0.4.45", default-features = false, features = ["std"] }
jiff = { version = "=0.2.38", default-features = false, features = ["std"] }
bytes = "=1.12.1"
serde = { version = "=1.0.229", features = ["derive"] }
darling = "=0.24.1"
syn = { version = "=3.0.9", features = ["full"] }
quote = "=1.0.47"
proc-macro2 = "=1.0.107"
