[package]
name = "talk_loco_client"
version = "0.1.0"
edition = "2021"
publish = false

[dependencies]
futures-loco-protocol = "*"
async-stream = "0.3"
futures-lite = "*"
serde = { version = "1", features = ["derive"] }
bson = "2"
