[package]
name = "ties"
version = "0.1.0"
edition = "2021"
publish = false

[dependencies]
ammonia = "*"
anyhow = "*"
ipnet = "*"
legible = "*"
reqwest = "*"
sqlx = { version = "*", default-features = false, features = ["derive", "postgres", "runtime-tokio", "time", "uuid"] }
time = "*"
tokio = { version = "*", features = ["macros", "net", "rt-multi-thread", "sync", "time"] }
tracing = "*"
url = "*"
uuid = { version = "*", features = ["v4"] }
