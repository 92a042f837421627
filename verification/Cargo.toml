[package]
name = "sqlx_any"
version = "0.1.0"
edition = "2021"
publish = false

[dependencies]
futures-core = { version = "0.3", default-features = false, features = ["alloc"] }
futures-util = { version = "0.3", default-features = false, features = ["alloc"] }
url = "2"
