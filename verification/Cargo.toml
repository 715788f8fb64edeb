[package]
name = "sqlx_extension"
version = "0.1.0"
edition = "2021"
publish = false

[dependencies]
sqlx = { version = "*", default-features = false }
syn = "1"
proc-macro2 = "1"
