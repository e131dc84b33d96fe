//! The names of the attributes, by the semantic conventions of OpenTelemetry.
use vstd::prelude::*;

verus! {

/// `aws.log.group.names`
pub const AWS_LOG_GROUP_NAMES: &'static str = "aws.log.group.names";

/// `aws.log.stream.names`
pub const AWS_LOG_STREAM_NAMES: &'static str = "aws.log.stream.names";

/// `client.address`
pub const CLIENT_ADDRESS: &'static str = "client.address";

/// `cloud.account.id`
pub const CLOUD_ACCOUNT_ID: &'static str = "cloud.account.id";

/// `cloud.platform`
pub const CLOUD_PLATFORM: &'static str = "cloud.platform";

/// `cloud.provider`
pub const CLOUD_PROVIDER: &'static str = "cloud.provider";

/// `cloud.region`
pub const CLOUD_REGION: &'static str = "cloud.region";

/// `error.message`
pub const ERROR_MESSAGE: &'static str = "error.message";

/// `faas.coldstart`
pub const FAAS_COLDSTART: &'static str = "faas.coldstart";

/// `faas.instance`
pub const FAAS_INSTANCE: &'static str = "faas.instance";

/// `faas.invocation_id`
pub const FAAS_INVOCATION_ID: &'static str = "faas.invocation_id";

/// `faas.max_memory`
pub const FAAS_MAX_MEMORY: &'static str = "faas.max_memory";

/// `faas.name`
pub const FAAS_NAME: &'static str = "faas.name";

/// `faas.trigger`
pub const FAAS_TRIGGER: &'static str = "faas.trigger";

/// `faas.version`
pub const FAAS_VERSION: &'static str = "faas.version";

/// `http.request.method`
pub const HTTP_REQUEST_METHOD: &'static str = "http.request.method";

/// `http.route`
pub const HTTP_ROUTE: &'static str = "http.route";

/// `messaging.batch.message_count`
pub const MESSAGING_BATCH_MESSAGE_COUNT: &'static str = "messaging.batch.message_count";

/// `messaging.destination.name`
pub const MESSAGING_DESTINATION_NAME: &'static str = "messaging.destination.name";

/// `messaging.message.id`
pub const MESSAGING_MESSAGE_ID: &'static str = "messaging.message.id";

/// `messaging.operation.type`
pub const MESSAGING_OPERATION_TYPE: &'static str = "messaging.operation.type";

/// `messaging.system`
pub const MESSAGING_SYSTEM: &'static str = "messaging.system";

/// `network.protocol.version`
pub const NETWORK_PROTOCOL_VERSION: &'static str = "network.protocol.version";

/// `otel.status_code`
pub const OTEL_STATUS_CODE: &'static str = "otel.status_code";

/// `server.address`
pub const SERVER_ADDRESS: &'static str = "server.address";

/// `service.name`
pub const SERVICE_NAME: &'static str = "service.name";

/// `telemetry.sdk.language`
pub const TELEMETRY_SDK_LANGUAGE: &'static str = "telemetry.sdk.language";

/// `telemetry.sdk.name`
pub const TELEMETRY_SDK_NAME: &'static str = "telemetry.sdk.name";

/// `telemetry.sdk.version`
pub const TELEMETRY_SDK_VERSION: &'static str = "telemetry.sdk.version";

/// `url.path`
pub const URL_PATH: &'static str = "url.path";

/// `url.query`
pub const URL_QUERY: &'static str = "url.query";

/// `url.scheme`
pub const URL_SCHEME: &'static str = "url.scheme";

/// `user_agent.original`
pub const USER_AGENT_ORIGINAL: &'static str = "user_agent.original";

} // verus!
