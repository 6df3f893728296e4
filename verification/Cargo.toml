[package]
name = "awsome"
version = "0.1.0"
edition = "2021"
publish = false

[dependencies]
anyhow = "=1.0.104"
aws-config = { version = "=1.13.0", default-features = false, features = ["rt-tokio"] }
aws-sdk-cloudwatch = { version = "=1.138.0", default-features = false, features = ["rt-tokio"] }
aws-sdk-dynamodb = { version = "=1.134.0", default-features = false, features = ["rt-tokio"] }
aws-sdk-ecs = { version = "=1.154.0", default-features = false, features = ["rt-tokio"] }
aws-sdk-iam = { version = "=1.131.0", default-features = false, features = ["rt-tokio"] }
aws-sdk-lambda = { version = "=1.154.0", default-features = false, features = ["rt-tokio"] }
aws-sdk-mwaa = { version = "=1.126.0", default-features = false, features = ["rt-tokio"] }
aws-sdk-s3 = { version = "=1.155.0", default-features = false, features = ["rt-tokio"] }
aws-smithy-types = "=1.9.0"
crossterm = "=0.28.1"
ratatui = "=0.29.0"
tokio = { version = "=1.54.1", features = ["macros", "rt-multi-thread"] }
