[package]
name = "scriptvault"
version = "0.1.0"
edition = "2021"
publish = false

[dependencies]
anyhow = "*"
chrono = "*"
clap = { version = "*", features = ["derive"] }
colored = "*"
dialoguer = "*"
dirs = "*"
git2 = "*"
serde = { version = "*", features = ["derive"] }
serde_json = "*"
sha2 = "*"
shellexpand = "*"
uuid = { version = "*", features = ["v4"] }
which = "*"
