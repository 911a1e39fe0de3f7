[package]
name = "pkrs"
version = "0.1.0"
edition = "2021"
publish = false

[dependencies]
reqwest = { version = "*", default-features = false }
serde = { version = "1", features = ["derive"] }
serde_json = "1"
serde_either = "*"
time = "0.3"
clap = { version = "4", features = ["derive"] }
tokio = { version = "1", features = ["macros", "rt-multi-thread"] }
url = { version = "2", features = ["serde"] }
uuid = { version = "1", features = ["serde"] }
