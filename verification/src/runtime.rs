//! The extension runtime and its builder.
use crate::config::{Config, FlushStrategy};
use crate::config;
use crate::exporter::ExportError;
use crate::resource::{detect_resource, DetectedResource, LambdaEnvironment, ResourceBuilder};
use crate::resource;
use crate::text;
use vstd::prelude::*;
use vstd::string::*;

verus! {

/// The types of telemetry that the extension subscribes to.
pub fn telemetry_types() -> (types: Vec<&'static str>)
    ensures
        text::views(types@) == seq!["platform"@, "function"@, "extension"@],
{
    let types = vec!["platform", "function", "extension"];
    assert(text::views(types@) =~= seq!["platform"@, "function"@, "extension"@]);
    types
}

/// Extension runtime that orchestrates all components.
#[derive(Debug)]
pub struct ExtensionRuntime {
    /// The configuration.
    pub config: Config,
    /// The resource of the extension's own telemetry.
    pub resource: DetectedResource,
}

impl ExtensionRuntime {
    /// Creates a new extension runtime with the given configuration.
    pub fn new(config: Config, env: &LambdaEnvironment) -> (r: Self)
        requires
            env.memory_fits(),
        ensures
            r.config == config,
            r.resource.wf(),
            r.resource@ == resource::detected_attributes(*env),
            r.resource.schema_url is None,
    {
        ExtensionRuntime { config, resource: detect_resource(env) }
    }

    /// Creates a runtime with default configuration, with a queue that fits the
    /// memory of the function.
    pub fn with_defaults(env: &LambdaEnvironment) -> (r: Self)
        requires
            env.memory_fits(),
        ensures
            config::is_default_for(
                r.config,
                config::memory_size(text::opt_view(env.memory_size)),
            ),
            r.resource.wf(),
            r.resource@ == resource::detected_attributes(*env),
            r.resource.schema_url is None,
    {
        let memory_size = match &env.memory_size {
            Some(s) => Some(s.as_str()),
            None => None,
        };
        ExtensionRuntime::new(Config::for_memory_size(memory_size), env)
    }

    /// Sets a custom resource for this runtime.
    pub fn with_resource(self, resource: DetectedResource) -> (r: Self)
        ensures
            r == (ExtensionRuntime { resource, ..self }),
    {
        ExtensionRuntime { resource, ..self }
    }
}

/// Errors from the extension runtime.
#[non_exhaustive]
#[derive(Debug)]
pub enum RuntimeError {
    /// Failed to create extension state during initialisation.
    StateInit(ExportError),
    /// Failed to start OTLP receiver.
    ReceiverStart(std::io::Error),
    /// Event loop encountered an error, for the given reason.
    EventLoop(String),
}

/// What a runtime error comes from.
#[derive(Debug)]
pub enum RuntimeErrorSource<'a> {
    /// An export error.
    Export(&'a ExportError),
    /// An error of input or output.
    Io(&'a std::io::Error),
    /// A reason in words.
    Reason(&'a str),
}

impl RuntimeError {
    /// The error in words, as the contracts see it.
    pub open spec fn words(&self) -> Seq<char> {
        match self {
            RuntimeError::StateInit(_) => "failed to create extension state"@,
            RuntimeError::ReceiverStart(_) => "failed to start OTLP receiver"@,
            RuntimeError::EventLoop(_) => "event loop error"@,
        }
    }

    /// The error in words.
    pub fn message(&self) -> (s: &'static str)
        ensures
            s@ == self.words(),
    {
        match self {
            RuntimeError::StateInit(_) => "failed to create extension state",
            RuntimeError::ReceiverStart(_) => "failed to start OTLP receiver",
            RuntimeError::EventLoop(_) => "event loop error",
        }
    }

    /// What the error comes from.
    pub fn source(&self) -> (s: Option<RuntimeErrorSource<'_>>)
        ensures
            s is Some,
            match self {
                RuntimeError::StateInit(e) => s->0 is Export && *s->0->Export_0 == *e,
                RuntimeError::ReceiverStart(e) => s->0 is Io && *s->0->Io_0 == *e,
                RuntimeError::EventLoop(e) => s->0 is Reason && s->0->Reason_0@ == e@,
            },
    {
        match self {
            RuntimeError::StateInit(e) => Some(RuntimeErrorSource::Export(e)),
            RuntimeError::ReceiverStart(e) => Some(RuntimeErrorSource::Io(e)),
            RuntimeError::EventLoop(e) => Some(RuntimeErrorSource::Reason(e.as_str())),
        }
    }
}

/// Builder for configuring the extension runtime.
#[must_use]
#[derive(Debug)]
pub struct RuntimeBuilder {
    /// The configuration.
    pub config: Config,
    /// The resource, where it is not to be detected.
    pub resource: Option<DetectedResource>,
}

impl RuntimeBuilder {
    /// Creates a new runtime builder with default configuration, with a queue that fits
    /// the memory of the function.
    pub fn for_environment(env: &LambdaEnvironment) -> (b: Self)
        ensures
            config::is_default_for(
                b.config,
                config::memory_size(text::opt_view(env.memory_size)),
            ),
            b.resource is None,
    {
        let memory_size = match &env.memory_size {
            Some(s) => Some(s.as_str()),
            None => None,
        };
        RuntimeBuilder { config: Config::for_memory_size(memory_size), resource: None }
    }

    /// Creates a new runtime builder with default configuration, for a function whose
    /// memory size is not known.
    pub fn new() -> (b: Self)
        ensures
            config::is_default_config(b.config),
            b.resource is None,
    {
        RuntimeBuilder { config: Config::default(), resource: None }
    }

    /// Sets the configuration.
    pub fn config(self, config: Config) -> (b: Self)
        ensures
            b == (RuntimeBuilder { config, ..self }),
    {
        RuntimeBuilder { config, ..self }
    }

    /// Sets the OTLP exporter endpoint.
    pub fn exporter_endpoint(self, endpoint: &str) -> (b: Self)
        ensures
            text::opt_view(b.config.exporter.endpoint) == Some(endpoint@),
            b == (RuntimeBuilder {
                config: Config {
                    exporter: config::ExporterConfig {
                        endpoint: b.config.exporter.endpoint,
                        ..self.config.exporter
                    },
                    ..self.config
                },
                ..self
            }),
    {
        let mut config = self.config;
        config.exporter.endpoint = Some(endpoint.to_owned());
        RuntimeBuilder { config, resource: self.resource }
    }

    /// Sets the flush strategy.
    pub fn flush_strategy(self, strategy: FlushStrategy) -> (b: Self)
        ensures
            b == (RuntimeBuilder {
                config: Config {
                    flush: config::FlushConfig { strategy, ..self.config.flush },
                    ..self.config
                },
                ..self
            }),
    {
        let mut config = self.config;
        config.flush.strategy = strategy;
        RuntimeBuilder { config, resource: self.resource }
    }

    /// Disables the Telemetry API subscription.
    pub fn disable_telemetry_api(self) -> (b: Self)
        ensures
            b == (RuntimeBuilder {
                config: Config {
                    telemetry_api: config::TelemetryApiConfig {
                        enabled: false,
                        ..self.config.telemetry_api
                    },
                    ..self.config
                },
                ..self
            }),
    {
        let mut config = self.config;
        config.telemetry_api.enabled = false;
        RuntimeBuilder { config, resource: self.resource }
    }

    /// Sets a custom resource.
    pub fn resource(self, resource: DetectedResource) -> (b: Self)
        ensures
            b == (RuntimeBuilder { resource: Some(resource), ..self }),
    {
        RuntimeBuilder { resource: Some(resource), ..self }
    }

    /// Adds custom resource attributes: `f` completes a resource builder that holds
    /// what is detected in the environment.
    pub fn with_resource_attributes<F: FnOnce(ResourceBuilder) -> ResourceBuilder>(
        self,
        env: &LambdaEnvironment,
        f: F,
    ) -> (b: Self)
        requires
            env.memory_fits(),
            forall|r: ResourceBuilder|
                r.wf() && r@ == resource::detected_attributes(*env) ==> #[trigger] f.requires(
                    (r,),
                ),
            forall|r: ResourceBuilder, out: ResourceBuilder|
                r.wf() && #[trigger] f.ensures((r,), out) ==> out.wf(),
        ensures
            b.config == self.config,
            b.resource is Some && b.resource->0.wf(),
            b.resource->0.schema_url is None,
            exists|r: ResourceBuilder, out: ResourceBuilder|
                r.wf() && r@ == resource::detected_attributes(*env) && #[trigger] f.ensures(
                    (r,),
                    out,
                ) && b.resource->0@ == out@,
    {
        let completed = f(ResourceBuilder::new(env));
        RuntimeBuilder { config: self.config, resource: Some(completed.build()) }
    }

    /// Builds the extension runtime. Where no resource was set, it is detected.
    pub fn build(self, env: &LambdaEnvironment) -> (r: ExtensionRuntime)
        requires
            env.memory_fits(),
        ensures
            r.config == self.config,
            match self.resource {
                Some(resource) => r.resource == resource,
                None => {
                    &&& r.resource.wf()
                    &&& r.resource@ == resource::detected_attributes(*env)
                    &&& r.resource.schema_url is None
                },
            },
    {
        let runtime = ExtensionRuntime::new(self.config, env);
        match self.resource {
            Some(resource) => runtime.with_resource(resource),
            None => runtime,
        }
    }
}

impl Default for RuntimeBuilder {
    fn default() -> (b: Self)
        ensures
            config::is_default_config(b.config),
            b.resource is None,
    {
        RuntimeBuilder::new()
    }
}

/// Each runtime error has its words.
pub proof fn law_runtime_errors_have_their_words(e: RuntimeError)
    ensures
        e is StateInit ==> e.words() == "failed to create extension state"@,
        e is ReceiverStart ==> e.words() == "failed to start OTLP receiver"@,
        e is EventLoop ==> e.words() == "event loop error"@,
{
}

/// A runtime is built with what its builder was told, and without the telemetry interface
/// where that was disabled; the rest of its configuration stays.
pub proof fn law_a_runtime_is_built_as_told(
    b: RuntimeBuilder,
    c: Config,
    resource: DetectedResource,
    env: LambdaEnvironment,
    configured: RuntimeBuilder,
    placed: RuntimeBuilder,
    disabled: RuntimeBuilder,
    r: ExtensionRuntime,
)
    requires
        call_ensures(RuntimeBuilder::config, (b, c), configured),
        call_ensures(RuntimeBuilder::resource, (b, resource), placed),
        call_ensures(RuntimeBuilder::disable_telemetry_api, (b,), disabled),
        call_ensures(RuntimeBuilder::build, (placed, &env), r),
    ensures
        configured.config == c,
        configured.resource == b.resource,
        placed.resource == Some(resource),
        placed.config == b.config,
        !disabled.config.telemetry_api.enabled,
        disabled.config.exporter == b.config.exporter,
        disabled.config.flush == b.config.flush,
        disabled.config.receiver == b.config.receiver,
        disabled.resource == b.resource,
        r.resource == resource,
        r.config == b.config,
{
}

/// The telemetry of the platform, the function and the extension is subscribed to.
pub proof fn law_all_telemetry_is_subscribed_to(types: Vec<&'static str>)
    requires
        call_ensures(telemetry_types, (), types),
    ensures
        types@.len() == 3,
        types@[0]@ == "platform"@,
        types@[1]@ == "function"@,
        types@[2]@ == "extension"@,
{
    let all = text::views(types@);
    assert(all.len() == types@.len());
    assert(all[0] == types@[0]@ && all[1] == types@[1]@ && all[2] == types@[2]@);
}

} // verus!
