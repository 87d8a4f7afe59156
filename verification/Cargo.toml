[package]
name = "bde"
version = "0.1.0"
edition = "2021"
publish = false

[dependencies]
sqlparser = "*"
tera = "*"
serde = { version = "1", features = ["derive"] }
clap = { version = "4", features = ["derive"] }
config = "*"
colored = "*"
