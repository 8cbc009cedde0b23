[package]
name = "iron-bin"
version = "0.1.0"
edition = "2021"
publish = false

[dependencies]
anyhow = "1"
camino = "1"
chrono = { version = "0.4", default-features = false, features = ["std", "clock"] }
clap = { version = "4", features = ["derive"] }
fast-glob = "*"
humansize = "2"
rust-ini = "*"
shell-quote = "*"
tabled = "*"
urlencoding = "2"
xdg = "3"
