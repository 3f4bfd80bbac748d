[package]
name = "dsh_desktop"
version = "0.1.0"
edition = "2021"
publish = false

[dependencies]
semver = "1"
rand = "0.8"
serde_json = "1"
ureq = "2"
zip = { version = "2", default-features = false, features = ["deflate"] }
if-addrs = "*"
