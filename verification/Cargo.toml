[package]
name = "mention_relay"
version = "0.1.0"
edition = "2021"
publish = false

[dependencies]
async-openai = "=0.28.3"
dptree = "=0.3.0"
log = "=0.4.34"
pretty_env_logger = "=0.5.0"
takecell = "<0.1.2"
teloxide = { version = "=0.15.0", features = ["macros"] }
tokio = { version = "=1.54.1", features = ["rt-multi-thread", "macros"] }
