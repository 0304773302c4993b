[package]
name = "commitment"
version = "0.1.0"
edition = "2021"
publish = false

[dependencies]
anyhow = "1"
git2 = { version = "*", default-features = false }
log = "0.4"
regex = "1"
