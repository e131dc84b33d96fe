[package]
name = "opentelemetry-lambda"
version = "0.1.0"
edition = "2021"
publish = false

[dependencies]
aws_lambda_events = { version = "=1.2.1", default-features = false, features = ["apigw", "alb", "sns", "sqs"] }
axum = { version = "=0.8.9", default-features = false, features = ["http1", "tokio", "json"] }
chrono = "=0.4.45"
figment = { version = "=0.10.19", features = ["env", "toml"] }
flate2 = "=1.1.10"
hex = "=0.4.3"
http = "=1.5.0"
lambda-extension = "=1.1.1"
lambda_http = { version = "=1.3.2", default-features = false, features = ["apigw_rest", "apigw_http", "apigw_websockets", "alb"] }
lambda_runtime = { version = "=1.5.0", default-features = false }
opentelemetry = "=0.31.0"
opentelemetry-proto = { version = "=0.31.0", default-features = false, features = ["gen-tonic-messages", "trace", "metrics", "logs", "with-serde"] }
opentelemetry_sdk = "=0.31.0"
opentelemetry-semantic-conventions = { version = "=0.31.0", features = ["semconv_experimental"] }
pin-project = "=1.1.13"
prost = "=0.14.4"
rand = "=0.9.5"
reqwest = { version = "=0.12.28", default-features = false }
serde = { version = "=1.0.229", features = ["derive"] }
serde_json = "=1.0.154"
thiserror = "=2.0.21"
tokio = { version = "=1.54.1", features = ["full"] }
tokio-util = "=0.7.20"
tower = "=0.5.3"
tracing = "=0.1.44"
tracing-opentelemetry = "=0.32.1"
tracing-subscriber = { version = "=0.3.23", features = ["env-filter"] }

[dev-dependencies]
temp-env = "0.3"
