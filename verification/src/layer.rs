//! The settings of the tracing middleware.
use crate::time::Duration;
use opentelemetry_sdk::logs::SdkLoggerProvider;
use opentelemetry_sdk::trace::SdkTracerProvider;
use std::sync::Arc;
use vstd::prelude::*;

verus! {

/// The provider of tracers.
#[verifier::external_type_specification]
#[verifier::external_body]
pub struct ExSdkTracerProvider(SdkTracerProvider);

/// The provider of loggers.
#[verifier::external_type_specification]
#[verifier::external_body]
pub struct ExSdkLoggerProvider(SdkLoggerProvider);

/// The time that a flush may take by default, in seconds.
pub const DEFAULT_FLUSH_TIMEOUT_SECS: u64 = 5;

/// Layer that adds OpenTelemetry tracing to Lambda handlers.
///
/// A service that it wraps extracts trace context from Lambda events, creates spans
/// with semantic attributes, detects cold starts, and flushes the providers after
/// each invocation.
///
/// `E` is the type of the trace context extractor.
#[derive(Clone)]
pub struct OtelTracingLayer<E> {
    /// The extractor.
    pub extractor: E,
    /// The tracer provider to flush.
    pub tracer_provider: Option<Arc<SdkTracerProvider>>,
    /// The logger provider to flush.
    pub logger_provider: Option<Arc<SdkLoggerProvider>>,
    /// Whether to flush after each invocation.
    pub flush_on_end: bool,
    /// The time that a flush may take.
    pub flush_timeout: Duration,
}

impl<E> OtelTracingLayer<E> {
    /// Whether these are the default settings of an extractor.
    pub open spec fn is_default(self, extractor: E) -> bool {
        &&& self.extractor == extractor
        &&& self.tracer_provider is None
        &&& self.logger_provider is None
        &&& self.flush_on_end
        &&& self.flush_timeout.nanos == 5_000_000_000
    }

    /// Creates a new tracing layer with the given extractor.
    ///
    /// Uses default settings:
    /// - Flush on end: enabled
    /// - Flush timeout: 5 seconds
    /// - No tracer provider (uses global provider)
    /// - No logger provider (logs not flushed)
    pub fn new(extractor: E) -> (l: Self)
        ensures
            l.is_default(extractor),
    {
        OtelTracingLayer {
            extractor,
            tracer_provider: None,
            logger_provider: None,
            flush_on_end: true,
            flush_timeout: Duration::from_secs(DEFAULT_FLUSH_TIMEOUT_SECS),
        }
    }

    /// Creates a builder for more detailed configuration.
    pub fn builder(extractor: E) -> (b: OtelTracingLayerBuilder<E>)
        ensures
            b.layer.is_default(extractor),
    {
        OtelTracingLayerBuilder::new(extractor)
    }
}

/// Builder for configuring an `OtelTracingLayer`.
#[must_use]
pub struct OtelTracingLayerBuilder<E> {
    /// The settings so far.
    pub layer: OtelTracingLayer<E>,
}

impl<E> OtelTracingLayerBuilder<E> {
    /// Creates a new builder with the given extractor.
    pub fn new(extractor: E) -> (b: Self)
        ensures
            b.layer.is_default(extractor),
    {
        OtelTracingLayerBuilder { layer: OtelTracingLayer::new(extractor) }
    }

    /// Sets the tracer provider to use for flushing.
    pub fn tracer_provider(self, provider: Arc<SdkTracerProvider>) -> (b: Self)
        ensures
            b.layer == (OtelTracingLayer { tracer_provider: Some(provider), ..self.layer }),
    {
        let mut layer = self.layer;
        layer.tracer_provider = Some(provider);
        OtelTracingLayerBuilder { layer }
    }

    /// Sets the logger provider to use for flushing.
    ///
    /// If not set, logs will not be explicitly flushed after each invocation.
    pub fn logger_provider(self, provider: Arc<SdkLoggerProvider>) -> (b: Self)
        ensures
            b.layer == (OtelTracingLayer { logger_provider: Some(provider), ..self.layer }),
    {
        let mut layer = self.layer;
        layer.logger_provider = Some(provider);
        OtelTracingLayerBuilder { layer }
    }

    /// Sets whether to flush the providers after each invocation.
    ///
    /// Default: `true`
    pub fn flush_on_end(self, flush: bool) -> (b: Self)
        ensures
            b.layer == (OtelTracingLayer { flush_on_end: flush, ..self.layer }),
    {
        let mut layer = self.layer;
        layer.flush_on_end = flush;
        OtelTracingLayerBuilder { layer }
    }

    /// Sets the timeout for flush operations.
    ///
    /// Default: 5 seconds
    pub fn flush_timeout(self, timeout: Duration) -> (b: Self)
        ensures
            b.layer == (OtelTracingLayer { flush_timeout: timeout, ..self.layer }),
    {
        let mut layer = self.layer;
        layer.flush_timeout = timeout;
        OtelTracingLayerBuilder { layer }
    }

    /// Builds the configured layer.
    pub fn build(self) -> (l: OtelTracingLayer<E>)
        ensures
            l == self.layer,
    {
        self.layer
    }
}

/// A layer flushes at the end of each invocation, unless it is told not to, for five
/// seconds at most, and knows of no provider until it is given one.
pub proof fn law_a_layer_flushes_for_five_seconds<E>(
    extractor: E,
    l: OtelTracingLayer<E>,
    b: OtelTracingLayerBuilder<E>,
    built: OtelTracingLayer<E>,
)
    requires
        call_ensures(OtelTracingLayer::<E>::new, (extractor,), l),
        call_ensures(OtelTracingLayerBuilder::<E>::new, (extractor,), b),
        call_ensures(OtelTracingLayerBuilder::<E>::build, (b,), built),
    ensures
        l.extractor == extractor,
        l.flush_on_end,
        l.flush_timeout@ == 5 * 1_000_000_000,
        l.tracer_provider is None,
        l.logger_provider is None,
        built.extractor == extractor,
        built.flush_on_end,
        built.flush_timeout@ == 5 * 1_000_000_000,
        built.tracer_provider is None,
        built.logger_provider is None,
{
}

/// A layer's builder changes what it names and nothing else.
pub proof fn law_a_layer_builder_sets_what_it_names<E>(
    b: OtelTracingLayerBuilder<E>,
    tracer: Arc<SdkTracerProvider>,
    logger: Arc<SdkLoggerProvider>,
    flush: bool,
    timeout: Duration,
    with_tracer: OtelTracingLayerBuilder<E>,
    with_logger: OtelTracingLayerBuilder<E>,
    with_flush: OtelTracingLayerBuilder<E>,
    with_timeout: OtelTracingLayerBuilder<E>,
)
    requires
        call_ensures(OtelTracingLayerBuilder::<E>::tracer_provider, (b, tracer), with_tracer),
        call_ensures(OtelTracingLayerBuilder::<E>::logger_provider, (b, logger), with_logger),
        call_ensures(OtelTracingLayerBuilder::<E>::flush_on_end, (b, flush), with_flush),
        call_ensures(OtelTracingLayerBuilder::<E>::flush_timeout, (b, timeout), with_timeout),
    ensures
        with_tracer.layer.tracer_provider == Some(tracer),
        with_tracer.layer.logger_provider == b.layer.logger_provider,
        with_tracer.layer.flush_on_end == b.layer.flush_on_end,
        with_logger.layer.logger_provider == Some(logger),
        with_logger.layer.tracer_provider == b.layer.tracer_provider,
        with_logger.layer.flush_on_end == b.layer.flush_on_end,
        with_flush.layer.flush_on_end == flush,
        with_flush.layer.flush_timeout == b.layer.flush_timeout,
        with_flush.layer.tracer_provider == b.layer.tracer_provider,
        with_timeout.layer.flush_timeout == timeout,
        with_timeout.layer.flush_on_end == b.layer.flush_on_end,
        with_timeout.layer.extractor == b.layer.extractor,
{
}

} // verus!
