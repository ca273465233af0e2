[package]
name = "judges"
version = "0.1.0"
edition = "2021"
publish = false

[dependencies]
bstr = "1"
uuid = "1"
anyhow = "1"
tokio = { version = "1", features = ["macros", "rt-multi-thread"] }
futures = "0.3"
lapin = "*"
tokio-postgres = "0.7"
postgres-types = "0.2"
deadpool-postgres = "*"
serde = { version = "1", features = ["derive"] }
thiserror = "*"
tracing = "0.1"
tracing-subscriber = { version = "0.3", features = ["env-filter"] }
code-executor = "*"
