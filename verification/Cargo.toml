[package]
name = "lambda_agent"
version = "0.1.0"
edition = "2021"
publish = false

[dependencies]
aws-config = { version = "=1.13.0", features = ["behavior-version-latest"] }
aws-sdk-bedrockruntime = "=1.151.0"
aws-smithy-runtime-api = { version = "=1.19.1", features = ["client"] }
aws-smithy-types = "=1.9.0"
lambda_http = "=1.3.2"
serde_json = "=1.0.154"
tokio = { version = "=1.54.1", features = ["macros", "rt-multi-thread"] }
tracing = "=0.1.44"
