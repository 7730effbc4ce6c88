[package]
name = "exo_sql"
version = "0.1.0"
edition = "2021"
publish = false

[dependencies]
heck = "0.4"
anyhow = "1"
clap = "*"
postgres = "*"
