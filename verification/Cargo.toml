[package]
name = "pre_commit_rs"
version = "0.1.0"
edition = "2021"
publish = false

[dependencies]
anyhow = "=1.0.104"
bstr = "=1.13.1"
clap = { version = "=4.6.7", features = ["derive"] }
dirs = "=7.0.0"
faccess = "=0.2.4"
fslock = "=0.2.1"
gix = { version = "=0.90.0", default-features = false, features = ["index", "sha1"] }
indoc = "=2.0.8"
pathdiff = "=0.2.3"
rm_rf = "=0.6.2"
rusqlite = "=0.41.0"
serde = "=1.0.229"
serde_yaml = "=0.9.34"
tempfile = "=3.27.0"
