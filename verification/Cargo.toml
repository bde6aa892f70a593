[package]
name = "aws_toolkit"
version = "0.5.0"
edition = "2021"
publish = false

[dependencies]
anyhow = "1"
aws-config = { version = "1", features = ["behavior-version-latest"] }
aws-sdk-cloudwatchlogs = "1"
aws-sdk-ecr = "1"
aws-sdk-ecs = "1"
aws-sdk-lambda = "1"
aws-sdk-s3 = "1"
aws-sdk-sso = "1"
aws-sdk-ssooidc = "1"
chrono = { version = "0.4", features = ["serde"] }
dirs = "*"
hex = "0.4"
open = "*"
serde = { version = "1", features = ["derive"] }
serde_json = "1"
sha2 = "0.10"
tokio = { version = "1", features = ["full"] }
zed_extension_api = "*"
