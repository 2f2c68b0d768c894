[package]
name = "mob_push"
version = "0.1.0"
edition = "2021"
publish = false

[dependencies]
md5 = "*"
serde_json = "*"
serde = { version = "*", features = ["derive"] }
toml = "*"
url = "*"
once_cell = "*"
async-trait = "*"
tokio = { version = "*", features = ["rt", "sync", "time", "macros"] }
