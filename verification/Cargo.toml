[package]
name = "startmc"
version = "0.1.0"
edition = "2021"
publish = false

[dependencies]
chrono = "=0.4.45"
chrono-humanize = "=0.2.3"
clap = "=4.6.7"
color-eyre = "=0.6.5"
dialoguer = { version = "=0.12.0", features = ["fuzzy-select"] }
dirs = "=7.0.0"
ferinth = "=2.13.1"
futures = "=0.3.34"
indicatif = { version = "=0.18.6", features = ["rayon"] }
nu-ansi-term = "=0.50.3"
owo-colors = "=4.4.0"
pin-project-lite = "=0.2.17"
rayon = "=1.12.0"
re_format = "=0.25.1"
reqwest = { version = "=0.13.5", features = ["json"] }
serde = { version = "=1.0.229", features = ["derive"] }
serde_json = "=1.0.151"
sha1_smol = "=1.0.1"
tokio = { version = "=1.53.2", features = ["macros", "rt-multi-thread", "fs", "io-util"] }
toml = "=1.1.7"
tracing = "=0.1.44"
tracing-subscriber = { version = "=0.3.23", features = ["env-filter"] }
version-compare = "=0.2.1"
