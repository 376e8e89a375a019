[package]
name = "git_ai"
version = "0.1.0"
edition = "2021"
publish = false

[dependencies]
async-openai = "=0.14.3"
clap = { version = "=4.6.7", features = ["derive"] }
colored = "=2.2.0"
rust-ini = "=0.19.0"
serde = { version = "=1.0.229", features = ["derive"] }
serde_json = { version = "=1.0.154", features = ["raw_value"] }
textwrap = "=0.16.4"
tokio = { version = "=1.54.1", features = ["macros", "rt-multi-thread"] }
