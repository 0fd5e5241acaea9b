[package]
name = "resent"
version = "0.1.0"
edition = "2021"
publish = false

[dependencies]
sea-query = { version = "=1.0.2", features = ["with-uuid", "with-chrono"] }
uuid = { version = "=1.29.0", features = ["v4"] }
chrono = "=0.4.45"
convert_case = "=0.12.0"
sqlx = { version = "=0.9.0", default-features = false, features = ["postgres", "runtime-tokio", "uuid", "chrono"] }
sea-query-sqlx = { version = "=0.9.1", features = ["sqlx-postgres", "with-uuid", "with-chrono", "runtime-tokio"] }
futures-util = "=0.3.34"
async-trait = "=0.1.92"
thiserror = "=2.0.21"
