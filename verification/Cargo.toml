[package]
name = "todo_list"
version = "0.1.0"
edition = "2021"
publish = false

[dependencies]
druid = { version = "0.7", features = ["im"] }
serde = { version = "1", features = ["derive"] }
serde_json = "1"
uuid = { version = "1", features = ["v4", "serde"] }
