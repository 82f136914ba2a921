[package]
name = "dungeon"
version = "0.1.0"
edition = "2021"
publish = false

[dependencies]
ring = "0.17"
hex = "0.4"
serde = "1"
serde_derive = "1"
serde_json = "1"
tokio = { version = "1", features = ["full"] }
clap = { version = "4", features = ["derive"] }
tui = "0.19"
crossterm = "0.25"
rpassword = "7"
rocksdb = "*"
