[package]
name = "manhuagui"
version = "0.1.0"
edition = "2021"
publish = false

[dependencies]
clap = { version = "=4.6.7", features = ["derive"] }
indicatif = "=0.17.11"
lz-string = "=0.1.1"
rand = "=0.9.5"
range-parser = "=0.1.2"
regex = "=1.13.1"
reqwest = { version = "=0.12.28", default-features = false, features = ["blocking", "rustls-tls", "gzip", "deflate", "brotli"] }
scraper = "=0.29.0"
serde_json = "=1.0.154"
thiserror = "=1.0.69"
zip = { version = "=0.6.6", default-features = false }
