[package]
name = "fortune_gpt"
version = "0.1.0"
edition = "2021"
publish = false

[dependencies]
uuid = { version = "*", features = ["v4"] }
serde = { version = "*", features = ["derive"] }
serde_json = "*"
tokio = { version = "*", features = ["rt-multi-thread", "macros", "time", "signal"] }
sqlx = { version = "*", default-features = false, features = ["sqlite", "runtime-tokio"] }
reqwest = { version = "*", features = ["blocking", "json"] }
structopt = "*"
dotenv = "*"
thiserror = "*"
