[package]
name = "diesel-dynamic-schema"
version = "0.1.0"
edition = "2021"
publish = false

[dependencies]
diesel = { version = "2", default-features = false, features = ["sqlite", "postgres_backend", "mysql_backend"] }
