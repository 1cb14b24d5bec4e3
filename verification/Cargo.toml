[package]
name = "torrentfind"
version = "0.1.0"
edition = "2021"
publish = false

[dependencies]
regex = "1"
html-extractor = "*"
serde_json = "1"
term-table = "1"
colorful = "0.2"
reqwest = { version = "0.11", default-features = false, features = ["blocking", "json", "rustls-tls", "cookies"] }
serenity = { version = "0.11", default-features = false, features = ["builder", "cache", "client", "gateway", "http", "model", "utils", "rustls_backend"] }
tokio = { version = "1", features = ["macros", "rt-multi-thread"] }
confy = "0.5"
once_cell = "1"
serde = "1"
serde_derive = "1"
thiserror = "1"
http = "0.2"
clap = "2"
atty = "0.2"
