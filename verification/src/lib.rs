//! OpenTelemetry for AWS Lambda: the logic of a telemetry extension and of a
//! tracing middleware, with contracts that Verus proves.
pub mod aggregator;
pub mod cold_start;
pub mod completion;
pub mod config;
pub mod context;
pub mod conversion;
pub mod error;
pub mod exporter;
pub mod extractor;
pub mod extractors;
pub mod flush;
pub mod future;
pub mod invocation;
pub mod layer;
pub mod model;
pub mod otlp;
pub mod receiver;
pub mod resource;
pub mod runtime;
pub mod semconv;
pub mod service;
pub mod table;
pub mod telemetry;
pub mod text;
pub mod time;
pub mod tracing;
