[package]
name = "agora"
version = "0.1.0"
edition = "2021"
publish = false

[dependencies]
async-trait = "0.1"
sqlx = { version = "0.8", default-features = false, features = ["postgres", "runtime-tokio"] }
thiserror = "1"
time = "0.3"
