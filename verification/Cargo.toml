[package]
name = "remedy"
version = "0.1.0"
edition = "2021"
publish = false

[dependencies]
anyhow = "1"
clap = { version = "4", features = ["derive"] }
dashmap = "5"
pest = "2"
pest_meta = "2"
pest_vm = "2"
serde = { version = "1", features = ["derive"] }
stabby = "*"
strum = { version = "*", features = ["derive"] }
take_mut = "0.2"
termion = "*"
tokio = { version = "1", features = ["io-std", "macros", "rt-multi-thread"] }
toml = "0.8"
tower-lsp = "0.20"
