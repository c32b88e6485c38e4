[package]
name = "boj"
version = "0.1.0"
edition = "2021"
publish = false

[dependencies]
clap = { version = "=4.6.7", features = ["derive"] }
once_cell = "=1.21.4"
reqwest = { version = "=0.12.28", default-features = false, features = ["json", "rustls-tls"] }
scraper = "=0.27.0"
serde = { version = "=1.0.229", features = ["derive"] }
thiserror = "=2.0.21"
tokio = { version = "=1.53.2", features = ["macros", "rt-multi-thread"] }
toml = { version = "=1.1.7", features = ["preserve_order"] }
