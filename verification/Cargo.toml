[package]
name = "diesel_duckdb"
version = "0.1.0"
edition = "2021"
publish = false

[dependencies]
diesel = { version = "=2.3.14", features = ["i-implement-a-third-party-backend-and-opt-into-breaking-changes"] }
chrono = "=0.4.45"
