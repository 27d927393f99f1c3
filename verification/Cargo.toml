[package]
name = "s3rs"
version = "0.1.0"
edition = "2021"
publish = false

[dependencies]
quick-xml = "0.22"
serde_json = "1"
humansize = "2"
s3handler = "*"
structopt = "0.3"
colored = "2"
dirs = "4"
log = "0.4"
toml = "0.5"
serde = { version = "1", features = ["derive"] }
serde_derive = "1"
chrono = "0.4"
regex = "1"
reqwest = { version = "*", default-features = false, features = ["blocking"] }
tokio = "1"
