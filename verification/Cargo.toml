[package]
name = "stack_lifecycle"
version = "0.1.0"
edition = "2021"
publish = false

[dependencies]
anyhow = "1"
aws-config = { version = "1", features = ["behavior-version-latest"] }
aws-sdk-cloudformation = { version = "=1.134.0", features = ["behavior-version-latest"] }
aws-smithy-types = "=1.9.0"
chrono = "=0.4.45"
clap = { version = "4", features = ["derive"] }
colored = "=2.2.0"
dialoguer = "0.11"
spinners = "4"
tokio = { version = "1", features = ["macros", "rt-multi-thread"] }
tracing = "0.1"
tracing-subscriber = "0.3"
