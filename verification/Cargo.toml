[package]
name = "metasearch"
version = "0.1.0"
edition = "2021"
publish = false

[dependencies]
ahash = "0.8"
bytes = "1"
chrono = { version = "0.4", default-features = false, features = ["std", "clock"] }
futures = "0.3"
html-escape = "0.2"
mio = { version = "1", features = ["net", "os-poll"] }
regex = "1"
reqwest = { version = "0.12", default-features = false, features = ["rustls-tls", "stream"] }
rocket = "0.5"
rustls = { version = "0.23", default-features = false, features = ["ring", "std", "tls12"] }
tokio = { version = "1", features = ["rt-multi-thread", "macros", "sync"] }
urlencoding = "2"
webpki-roots = "0.26"
