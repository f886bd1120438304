[package]
name = "echo_handler"
version = "0.1.0"
edition = "2021"
publish = false

[dependencies]
lambda_runtime = "*"
serde_json = "1"
tokio = { version = "1", features = ["macros", "rt-multi-thread"] }
