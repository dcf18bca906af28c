[package]
name = "reponere"
version = "0.1.0"
edition = "2021"
publish = false

[dependencies]
version-compare = "*"
git2 = "*"
tempfile = "*"
serde = { version = "1", features = ["derive"] }
serde_json = "1"
serde_yml = "*"
thiserror = "*"
clap = { version = "4", features = ["derive"] }
