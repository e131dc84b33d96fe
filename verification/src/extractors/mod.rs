//! Extractors for the events of Lambda.
pub mod http;
pub mod lambda_http;
pub mod sns;
pub mod sqs;
