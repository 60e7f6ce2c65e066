[package]
name = "rfcb"
version = "0.1.0"
edition = "2021"
publish = false

[dependencies]
sea-query = { version = "0.28", default-features = false, features = ["backend-postgres", "with-chrono"] }
chrono = "0.4"
sqlx = { version = "0.6", default-features = false, features = ["postgres", "runtime-tokio-rustls", "chrono"] }
actix-web = "4"
dotenvy = "0.15"
sea-orm = { version = "0.11", features = ["sqlx-postgres", "runtime-tokio-rustls"] }
sea-orm-migration = { version = "0.11", features = ["sqlx-postgres", "runtime-tokio-rustls"] }
async-trait = "0.1"
diesel = { version = "2", features = ["postgres", "r2d2"] }
fake = "2"
