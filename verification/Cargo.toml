[package]
name = "libmcptool"
version = "0.1.0"
edition = "2021"
publish = false

[dependencies]
async-trait = "=0.1.92"
clap = { version = "=4.6.7", features = ["derive"] }
rustyline = "=19.0.0"
serde_json = "=1.0.154"
thiserror = "=2.0.21"
tmcp = "=0.2.0"
tokio = { version = "=1.54.1", features = ["macros", "rt-multi-thread", "sync"] }
