[package]
name = "instance_locator"
version = "0.1.0"
edition = "2021"
publish = false

[dependencies]
aws-config = "=0.54.1"
lambda_runtime = "=0.7.3"
serde = { version = "=1.0.229", features = ["derive"] }
tokio = { version = "=1.54.1", features = ["macros", "rt-multi-thread", "time"] }
tracing = "=0.1.44"
tracing-subscriber = { version = "=0.3.23", default-features = false, features = ["fmt"] }
