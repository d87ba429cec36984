[package]
name = "buddy_graph"
version = "0.1.0"
edition = "2021"
publish = false

[dependencies]
uuid = { version = "=1.27.0", features = ["v4"] }
chrono = "=0.4.45"
serde = { version = "=1.0.229", features = ["derive"] }
serde_json = "=1.0.151"
anyhow = "=1.0.104"
tokio = { version = "=1.53.2", features = ["rt-multi-thread", "macros"] }
async-openai = { version = "=0.42.1", features = ["chat-completion", "embedding"] }
neo4rs = "=0.8.0"
