[package]
name = "git_pr"
version = "0.1.0"
edition = "2021"
publish = false

[dependencies]
clap = { version = "=4.6.7", features = ["derive"] }
colored = "=2.2.0"
console = "=0.15.11"
git2 = { version = "=0.21.0", default-features = false }
indicatif = "=0.17.11"
log = "=0.4.34"
recap = "=0.1.2"
serde = { version = "=1.0.229", features = ["derive"] }
serde_json = "=1.0.154"
simple_logger = "=5.2.0"
subprocess = "=0.2.15"
tokio = { version = "=1.54.1", features = ["rt-multi-thread", "macros", "time", "sync"] }
