[package]
name = "k_ruoka_mcp"
version = "0.1.0"
edition = "2021"
publish = false

[dependencies]
anyhow = "1"
async-trait = "0.1"
chromiumoxide = "*"
clap = { version = "4", features = ["derive", "env"] }
futures = "0.3"
libc = "0.2"
rmcp = { version = "*", features = ["server", "macros", "schemars", "transport-io"] }
schemars = "1"
serde = { version = "1", features = ["derive"] }
serde_json = "1"
thiserror = "2"
tokio = { version = "1", features = ["full"] }
