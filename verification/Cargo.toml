[package]
name = "zb_install"
version = "0.1.0"
edition = "2021"
publish = false

[dependencies]
anyhow = "=1.0.104"
dialoguer = { version = "=0.12.0", features = ["fuzzy-select"] }
glob = "=0.3.4"
octocrab = "=0.40.0"
reqwest = { version = "=0.12.28", default-features = false, features = ["rustls-tls"] }
tokio = { version = "=1.53.2", features = ["macros", "rt-multi-thread"] }
urlencoding = "=2.1.3"
