[package]
name = "polars_mongo"
version = "0.1.0"
edition = "2021"
publish = false

[dependencies]
futures = "=0.3.34"
mongodb = "=2.8.2"
num = "=0.4.3"
polars = { version = "=0.24.3", features = ["rows", "dtype-date", "dtype-datetime", "dtype-struct"] }
polars-core = { version = "=0.24.3", features = ["rows", "dtype-date", "dtype-datetime", "dtype-struct"] }
polars-time = { version = "=0.24.3", features = ["dtype-date", "dtype-datetime"] }
serde = { version = "=1.0.229", features = ["derive"] }
