[package]
name = "sd"
version = "0.1.0"
edition = "2021"
publish = false

[dependencies]
regex = "=1.13.1"
similar = { version = "=3.2.0", features = ["inline"] }
anyhow = "=1.0.104"
atty = "=0.2.14"
clap = { version = "=4.6.7", features = ["derive"] }
colored = "=3.1.1"
ignore = "=0.4.33"
