//! Lambda resource attribute detection.
//!
//! The attributes of the Lambda environment, from its environment variables, and
//! those of the extension, which distinguish its telemetry from the function's.
use crate::model;
use crate::model::{AnyValue, KeyValue, ValueView};
use crate::semconv;
use crate::table;
use crate::table::Table;
use crate::text;
use crate::text::{read_i64, strip_prefix_str};
use vstd::prelude::*;
use vstd::string::*;

verus! {

/// The version of the extension.
pub const VERSION: &'static str = "0.1.0";

/// The schema that the attribute names follow.
pub const SCHEMA_URL: &'static str = "https://opentelemetry.io/schemas/1.36.0";

/// The name of the extension.
pub const EXTENSION_NAME: &'static str = "opentelemetry-lambda-extension";

/// The values of the environment variables of the Lambda runtime.
#[derive(Debug, Clone)]
pub struct LambdaEnvironment {
    /// `AWS_EXECUTION_ENV`.
    pub execution_env: Option<String>,
    /// `AWS_REGION`.
    pub region: Option<String>,
    /// `AWS_LAMBDA_FUNCTION_NAME`.
    pub function_name: Option<String>,
    /// `AWS_LAMBDA_FUNCTION_VERSION`.
    pub function_version: Option<String>,
    /// `AWS_LAMBDA_FUNCTION_MEMORY_SIZE`, in MB.
    pub memory_size: Option<String>,
    /// `AWS_LAMBDA_LOG_GROUP_NAME`.
    pub log_group_name: Option<String>,
    /// `AWS_LAMBDA_LOG_STREAM_NAME`.
    pub log_stream_name: Option<String>,
}

impl LambdaEnvironment {
    /// An environment with nothing set.
    pub fn empty() -> (e: Self)
        ensures
            e.execution_env is None,
            e.region is None,
            e.function_name is None,
            e.function_version is None,
            e.memory_size is None,
            e.log_group_name is None,
            e.log_stream_name is None,
    {
        LambdaEnvironment {
            execution_env: None,
            region: None,
            function_name: None,
            function_version: None,
            memory_size: None,
            log_group_name: None,
            log_stream_name: None,
        }
    }

    /// Whether the variables say that this is a Lambda environment.
    pub open spec fn in_lambda(self) -> bool {
        self.execution_env is Some && text::strip_prefix(
            self.execution_env->0@,
            "AWS_Lambda_"@,
        ) is Some
    }

    /// The memory size, where the variable holds a number.
    pub open spec fn memory_mb(self) -> Option<int> {
        match self.memory_size {
            Some(s) => text::parse_signed(s@, i64::MAX as nat),
            None => None,
        }
    }

    /// Whether the memory size can be told in bytes, where it is told at all.
    pub open spec fn memory_fits(self) -> bool {
        self.in_lambda() && self.memory_mb() is Some ==> i64::MIN <= self.memory_mb()->0 * 1_048_576
            <= i64::MAX
    }

    /// Tells whether the variables say that this is a Lambda environment.
    pub fn is_lambda(&self) -> (r: bool)
        ensures
            r == self.in_lambda(),
    {
        match &self.execution_env {
            Some(e) => strip_prefix_str(e.as_str(), "AWS_Lambda_").is_some(),
            None => false,
        }
    }

    /// Tells whether the memory size can be told in bytes, where it is told at all.
    pub fn memory_size_fits(&self) -> (r: bool)
        ensures
            r == self.memory_fits(),
    {
        if !self.is_lambda() {
            return true;
        }
        match &self.memory_size {
            Some(s) => match read_i64(s.as_str()) {
                Some(mb) => {
                    let bytes: i128 = mb as i128 * 1_048_576;
                    i64::MIN as i128 <= bytes && bytes <= i64::MAX as i128
                },
                None => true,
            },
            None => true,
        }
    }
}

/// Attributes by name, as the contracts see them.
pub type Attributes = Map<Seq<char>, ValueView>;

/// The attributes of a table.
pub open spec fn attribute_map(t: Table<AnyValue>) -> Attributes {
    t@.map_values(|v: AnyValue| v@)
}

/// The attributes with one more, where it has a value.
pub open spec fn with_text(m: Attributes, key: Seq<char>, value: Option<String>) -> Attributes {
    match value {
        Some(v) => m.insert(key, ValueView::Text(v@)),
        None => m,
    }
}

/// The attributes of the Lambda environment; none outside of one.
pub open spec fn lambda_attributes(env: LambdaEnvironment) -> Attributes {
    if !env.in_lambda() {
        Map::empty()
    } else {
        let m = Map::<Seq<char>, ValueView>::empty();
        let m = m.insert(semconv::CLOUD_PROVIDER@, ValueView::Text("aws"@));
        let m = m.insert(semconv::CLOUD_PLATFORM@, ValueView::Text("aws_lambda"@));
        let m = with_text(m, semconv::CLOUD_REGION@, env.region);
        let m = with_text(m, semconv::FAAS_NAME@, env.function_name);
        let m = with_text(m, semconv::FAAS_VERSION@, env.function_version);
        let m = match env.memory_mb() {
            Some(mb) => m.insert(
                semconv::FAAS_MAX_MEMORY@,
                ValueView::Int((mb * 1_048_576) as i64),
            ),
            None => m,
        };
        let m = match env.log_group_name {
            Some(v) => m.insert(semconv::AWS_LOG_GROUP_NAMES@, ValueView::List(seq![v@])),
            None => m,
        };
        with_text(m, semconv::FAAS_INSTANCE@, env.log_stream_name)
    }
}

/// The attributes of the extension itself.
pub open spec fn extension_attributes() -> Attributes {
    let m = Map::<Seq<char>, ValueView>::empty();
    let m = m.insert(semconv::SERVICE_NAME@, ValueView::Text(EXTENSION_NAME@));
    let m = m.insert(semconv::TELEMETRY_SDK_NAME@, ValueView::Text(EXTENSION_NAME@));
    let m = m.insert(semconv::TELEMETRY_SDK_LANGUAGE@, ValueView::Text("rust"@));
    m.insert(semconv::TELEMETRY_SDK_VERSION@, ValueView::Text(VERSION@))
}

/// Sets an attribute.
fn put(t: &mut Table<AnyValue>, key: &str, value: AnyValue)
    requires
        old(t).wf(),
    ensures
        final(t).wf(),
        attribute_map(*final(t)) == attribute_map(*old(t)).insert(key@, value@),
{
    t.insert(key.to_owned(), value);
    assert(attribute_map(*t) =~= attribute_map(*old(t)).insert(key@, value@));
}

/// Sets a string attribute, where it has a value.
fn put_text(t: &mut Table<AnyValue>, key: &str, value: &Option<String>)
    requires
        old(t).wf(),
    ensures
        final(t).wf(),
        attribute_map(*final(t)) == with_text(attribute_map(*old(t)), key@, *value),
{
    if let Some(v) = value {
        put(t, key, AnyValue::StringValue(v.clone()));
    }
}

/// Sets the attributes of the Lambda environment.
fn put_lambda(t: &mut Table<AnyValue>, env: &LambdaEnvironment)
    requires
        old(t).wf(),
        env.memory_fits(),
    ensures
        final(t).wf(),
        attribute_map(*final(t)) == attribute_map(*old(t)).union_prefer_right(
            lambda_attributes(*env),
        ),
{
    if !env.is_lambda() {
        assert(attribute_map(*t).union_prefer_right(Map::empty()) =~= attribute_map(*t));
        return;
    }
    put(t, semconv::CLOUD_PROVIDER, AnyValue::StringValue("aws".to_owned()));
    put(t, semconv::CLOUD_PLATFORM, AnyValue::StringValue("aws_lambda".to_owned()));
    put_text(t, semconv::CLOUD_REGION, &env.region);
    put_text(t, semconv::FAAS_NAME, &env.function_name);
    put_text(t, semconv::FAAS_VERSION, &env.function_version);
    if let Some(memory) = &env.memory_size {
        if let Some(mb) = read_i64(memory.as_str()) {
            let bytes: i64 = mb * 1_048_576;
            put(t, semconv::FAAS_MAX_MEMORY, AnyValue::IntValue(bytes));
        }
    }
    if let Some(log_group) = &env.log_group_name {
        let names = vec![log_group.clone()];
        assert(names@.map_values(|s: String| s@) =~= seq![log_group@]);
        put(t, semconv::AWS_LOG_GROUP_NAMES, AnyValue::ArrayValue(names));
    }
    put_text(t, semconv::FAAS_INSTANCE, &env.log_stream_name);
    assert(attribute_map(*t) =~= attribute_map(*old(t)).union_prefer_right(
        lambda_attributes(*env),
    ));
}

/// Sets the attributes of the extension.
fn put_extension(t: &mut Table<AnyValue>)
    requires
        old(t).wf(),
    ensures
        final(t).wf(),
        attribute_map(*final(t)) == attribute_map(*old(t)).union_prefer_right(
            extension_attributes(),
        ),
{
    put(t, semconv::SERVICE_NAME, AnyValue::StringValue(EXTENSION_NAME.to_owned()));
    put(t, semconv::TELEMETRY_SDK_NAME, AnyValue::StringValue(EXTENSION_NAME.to_owned()));
    put(t, semconv::TELEMETRY_SDK_LANGUAGE, AnyValue::StringValue("rust".to_owned()));
    put(t, semconv::TELEMETRY_SDK_VERSION, AnyValue::StringValue(VERSION.to_owned()));
    assert(attribute_map(*t) =~= attribute_map(*old(t)).union_prefer_right(
        extension_attributes(),
    ));
}

/// A resource with its attributes by name.
#[derive(Debug, Clone)]
pub struct DetectedResource {
    /// The attributes.
    pub attributes: Table<AnyValue>,
    /// The schema that the attributes follow.
    pub schema_url: Option<String>,
}

impl View for DetectedResource {
    type V = Attributes;

    open spec fn view(&self) -> Attributes {
        attribute_map(self.attributes)
    }
}

impl DetectedResource {
    /// No attribute has two values.
    pub open spec fn wf(&self) -> bool {
        self.attributes.wf()
    }

    /// The number of attributes.
    pub fn len(&self) -> (n: usize)
        requires
            self.wf(),
        ensures
            n == self@.dom().len(),
    {
        assert(self@.dom() =~= self.attributes@.dom());
        self.attributes.len()
    }

    /// Whether there are no attributes.
    pub fn is_empty(&self) -> (r: bool)
        requires
            self.wf(),
        ensures
            r == (self@ == Map::<Seq<char>, ValueView>::empty()),
    {
        let n: usize = self.attributes.len();
        proof {
            self.attributes.lemma_listed();
            assert(self@.dom() =~= self.attributes@.dom());
            if n == 0 {
                assert(self@.dom() =~= Set::empty());
                assert(self@ =~= Map::empty());
            } else {
                assert(self@ != Map::<Seq<char>, ValueView>::empty()) by {
                    if self@ == Map::<Seq<char>, ValueView>::empty() {
                        assert(self@.dom() =~= Set::empty());
                        assert(self@.dom().len() == 0);
                    }
                }
            }
        }
        n == 0
    }

    /// The value of an attribute.
    pub fn get(&self, key: &str) -> (r: Option<&AnyValue>)
        requires
            self.wf(),
        ensures
            match r {
                Some(v) => self@.dom().contains(key@) && v@ == self@[key@],
                None => !self@.dom().contains(key@),
            },
    {
        self.attributes.get(key)
    }
}

/// AWS Lambda resource detector.
///
/// Detects Lambda runtime environment attributes. Only where the variables say
/// that this is a Lambda environment are there any.
#[derive(Debug, Clone, Copy, Default)]
pub struct AwsLambdaDetector;

impl AwsLambdaDetector {
    /// Creates a new AWS Lambda detector.
    pub fn new() -> (d: Self)
        ensures
            d == AwsLambdaDetector,
    {
        AwsLambdaDetector
    }

    /// Detects the attributes of the Lambda environment.
    pub fn detect(&self, env: &LambdaEnvironment) -> (r: DetectedResource)
        requires
            env.memory_fits(),
        ensures
            r.wf(),
            r@ == lambda_attributes(*env),
            text::opt_view(r.schema_url) == (if env.in_lambda() {
                Some(SCHEMA_URL@)
            } else {
                None
            }),
    {
        let mut attributes: Table<AnyValue> = Table::new();
        put_lambda(&mut attributes, env);
        proof {
            assert(attribute_map(attributes) =~= lambda_attributes(*env));
        }
        let schema_url = if env.is_lambda() {
            Some(SCHEMA_URL.to_owned())
        } else {
            None
        };
        DetectedResource { attributes, schema_url }
    }
}

/// Extension-specific resource detector.
///
/// Adds extension-specific attributes that distinguish the extension's telemetry
/// from the Lambda function's telemetry.
#[derive(Debug, Clone, Copy, Default)]
pub struct ExtensionDetector;

impl ExtensionDetector {
    /// Creates a new extension detector.
    pub fn new() -> (d: Self)
        ensures
            d == ExtensionDetector,
    {
        ExtensionDetector
    }

    /// Gives the attributes of the extension.
    pub fn detect(&self) -> (r: DetectedResource)
        ensures
            r.wf(),
            r@ == extension_attributes(),
            r.schema_url is None,
    {
        let mut attributes: Table<AnyValue> = Table::new();
        put_extension(&mut attributes);
        proof {
            assert(attribute_map(attributes) =~= extension_attributes());
        }
        DetectedResource { attributes, schema_url: None }
    }
}

/// The attributes of the extension in the given environment. Where a name stands
/// for both, it is the extension's.
pub open spec fn detected_attributes(env: LambdaEnvironment) -> Attributes {
    lambda_attributes(env).union_prefer_right(extension_attributes())
}

/// Detects Lambda environment and returns a configured resource.
pub fn detect_resource(env: &LambdaEnvironment) -> (r: DetectedResource)
    requires
        env.memory_fits(),
    ensures
        r.wf(),
        r@ == detected_attributes(*env),
        r.schema_url is None,
{
    ResourceBuilder::new(env).build()
}

/// Whether the list gives each attribute of the map once, and no other.
pub open spec fn lists(list: Seq<(Seq<char>, ValueView)>, m: Attributes) -> bool {
    &&& forall|i: int|
        0 <= i < list.len() ==> m.dom().contains((#[trigger] list[i]).0) && m[list[i].0]
            == list[i].1
    &&& forall|i: int, j: int|
        0 <= i < j < list.len() ==> (#[trigger] list[i]).0 != (#[trigger] list[j]).0
    &&& forall|k: Seq<char>| #[trigger]
        m.dom().contains(k) ==> exists|i: int| 0 <= i < list.len() && (#[trigger] list[i]).0 == k
}

/// Converts a resource to the list of attributes that OTLP asks for.
pub fn to_proto_resource(resource: &DetectedResource) -> (r: model::Resource)
    requires
        resource.wf(),
    ensures
        lists(r@, resource@),
{
    let mut attributes: Vec<KeyValue> = Vec::new();
    let n: usize = resource.attributes.len();
    let ghost entries = resource.attributes.listed();
    let mut i: usize = 0;
    proof {
        resource.attributes.lemma_listed();
    }
    while i < n
        invariant
            i <= n,
            n == entries.len(),
            entries == resource.attributes.listed(),
            attributes@.len() == i,
            forall|j: int|
                0 <= j < i ==> (#[trigger] attributes@[j])@ == (entries[j].0@, entries[j].1@),
        decreases n - i,
    {
        let entry = resource.attributes.entry(i);
        attributes.push(KeyValue { key: entry.0.clone(), value: entry.1.copy() });
        i = i + 1;
    }
    let r = model::Resource { attributes };
    proof {
        let m = resource@;
        assert(resource.attributes@ == table::entries_map(entries));
        assert forall|j: int| 0 <= j < r@.len() implies m.dom().contains((#[trigger] r@[j]).0)
            && m[r@[j].0] == r@[j].1 by {
            table::lemma_entry(entries, j);
            assert(r@[j] == attributes@[j]@);
        }
        assert forall|a: int, b: int| 0 <= a < b < r@.len() implies (#[trigger] r@[a]).0 != (
        #[trigger] r@[b]).0 by {
            assert(entries[a].0@ != entries[b].0@);
            assert(r@[a] == attributes@[a]@ && r@[b] == attributes@[b]@);
        }
        assert forall|k: Seq<char>| #[trigger] m.dom().contains(k) implies exists|j: int|
            0 <= j < r@.len() && (#[trigger] r@[j]).0 == k by {
            let j = table::key_index(entries, k);
            assert(table::has_key(entries, k));
            assert(r@[j] == attributes@[j]@);
        }
    }
    r
}

/// Builder for customising Lambda resource attributes.
#[must_use]
#[derive(Debug)]
pub struct ResourceBuilder {
    attributes: Table<AnyValue>,
}

impl View for ResourceBuilder {
    type V = Attributes;

    closed spec fn view(&self) -> Attributes {
        attribute_map(self.attributes)
    }
}

impl ResourceBuilder {
    /// No attribute has two values.
    pub closed spec fn wf(&self) -> bool {
        self.attributes.wf()
    }

    /// Creates a new resource builder with Lambda detection enabled.
    pub fn new(env: &LambdaEnvironment) -> (b: Self)
        requires
            env.memory_fits(),
        ensures
            b.wf(),
            b@ == detected_attributes(*env),
    {
        let mut attributes: Table<AnyValue> = Table::new();
        put_lambda(&mut attributes, env);
        put_extension(&mut attributes);
        proof {
            assert(attribute_map(attributes) =~= detected_attributes(*env));
        }
        ResourceBuilder { attributes }
    }

    /// Detects Lambda environment attributes automatically, once more: the
    /// detected values replace those that were set.
    pub fn detect_lambda_environment(self, env: &LambdaEnvironment) -> (b: Self)
        requires
            self.wf(),
            env.memory_fits(),
        ensures
            b.wf(),
            b@ == self@.union_prefer_right(detected_attributes(*env)),
    {
        let mut attributes = self.attributes;
        put_lambda(&mut attributes, env);
        put_extension(&mut attributes);
        proof {
            assert(attribute_map(attributes) =~= self@.union_prefer_right(
                detected_attributes(*env),
            ));
        }
        ResourceBuilder { attributes }
    }

    /// Adds a custom string attribute.
    pub fn add_string(self, key: &str, value: &str) -> (b: Self)
        requires
            self.wf(),
        ensures
            b.wf(),
            b@ == self@.insert(key@, ValueView::Text(value@)),
    {
        let mut attributes = self.attributes;
        put(&mut attributes, key, AnyValue::StringValue(value.to_owned()));
        ResourceBuilder { attributes }
    }

    /// Adds a custom integer attribute.
    pub fn add_int(self, key: &str, value: i64) -> (b: Self)
        requires
            self.wf(),
        ensures
            b.wf(),
            b@ == self@.insert(key@, ValueView::Int(value)),
    {
        let mut attributes = self.attributes;
        put(&mut attributes, key, AnyValue::IntValue(value));
        ResourceBuilder { attributes }
    }

    /// Adds a custom boolean attribute.
    pub fn add_bool(self, key: &str, value: bool) -> (b: Self)
        requires
            self.wf(),
        ensures
            b.wf(),
            b@ == self@.insert(key@, ValueView::Bool(value)),
    {
        let mut attributes = self.attributes;
        put(&mut attributes, key, AnyValue::BoolValue(value));
        ResourceBuilder { attributes }
    }

    /// Builds the resource.
    pub fn build(self) -> (r: DetectedResource)
        requires
            self.wf(),
        ensures
            r.wf(),
            r@ == self@,
            r.schema_url is None,
    {
        DetectedResource { attributes: self.attributes, schema_url: None }
    }

    /// Builds the resource and converts it to the list that OTLP asks for.
    pub fn build_proto(self) -> (r: model::Resource)
        requires
            self.wf(),
        ensures
            lists(r@, self@),
    {
        to_proto_resource(&self.build())
    }
}

/// The names of the extension's attributes are none of the function's, and those of the
/// function are told apart.
proof fn lemma_names_differ()
    ensures
        semconv::SERVICE_NAME@.len() == 12,
        semconv::TELEMETRY_SDK_NAME@.len() == 18,
        semconv::TELEMETRY_SDK_LANGUAGE@.len() == 22,
        semconv::TELEMETRY_SDK_VERSION@.len() == 21,
        semconv::FAAS_NAME@.len() == 9,
        semconv::FAAS_VERSION@.len() == 12,
        semconv::FAAS_VERSION@ != semconv::SERVICE_NAME@,
        semconv::FAAS_MAX_MEMORY@.len() == 15,
        semconv::AWS_LOG_GROUP_NAMES@.len() == 19,
        semconv::FAAS_INSTANCE@.len() == 13,
{
    reveal_strlit("service.name");
    reveal_strlit("telemetry.sdk.name");
    reveal_strlit("telemetry.sdk.language");
    reveal_strlit("telemetry.sdk.version");
    reveal_strlit("faas.name");
    reveal_strlit("faas.version");
    reveal_strlit("faas.max_memory");
    reveal_strlit("aws.log.group.names");
    reveal_strlit("faas.instance");
    assert(semconv::FAAS_VERSION@[0] != semconv::SERVICE_NAME@[0]);
}

/// The extension keeps an identity of its own: whatever the environment says, the
/// service name is the extension's, and the function is named by `faas.name`.
pub proof fn law_service_name_is_the_extension(env: LambdaEnvironment)
    ensures
        detected_attributes(env)[semconv::SERVICE_NAME@] == ValueView::Text(EXTENSION_NAME@),
        env.in_lambda() && env.function_name is Some ==> detected_attributes(
            env,
        )[semconv::FAAS_NAME@] == ValueView::Text(env.function_name->0@),
{
    lemma_names_differ();
}

/// Outside of Lambda only the extension's own attributes are known.
pub proof fn law_outside_lambda_only_the_extension(env: LambdaEnvironment)
    requires
        !env.in_lambda(),
    ensures
        detected_attributes(env) == extension_attributes(),
{
    assert(detected_attributes(env) =~= extension_attributes());
}

/// The memory size is told in bytes.
pub proof fn law_memory_is_told_in_bytes(env: LambdaEnvironment)
    requires
        env.in_lambda(),
        env.memory_fits(),
        env.memory_mb() is Some,
    ensures
        detected_attributes(env)[semconv::FAAS_MAX_MEMORY@] == ValueView::Int(
            (env.memory_mb()->0 * 1024 * 1024) as i64,
        ),
{
    lemma_names_differ();
}

/// The environment is Lambda's exactly where its variable begins with the name that Lambda
/// gives it.
pub proof fn law_lambda_is_told_by_its_variable(env: LambdaEnvironment, runtime: Seq<char>)
    ensures
        env.execution_env is None ==> !env.in_lambda(),
        env.execution_env is Some && env.execution_env->0@ == "AWS_Lambda_"@ + runtime
            ==> env.in_lambda(),
        env.execution_env is Some && !"AWS_Lambda_"@.is_prefix_of(env.execution_env->0@)
            ==> !env.in_lambda(),
{
    assert("AWS_Lambda_"@.is_prefix_of("AWS_Lambda_"@ + runtime));
}

/// In Lambda the resource tells of the function: where it runs, its name, its version, the
/// group of its logs and its instance, each where the environment tells it, and not where
/// it does not.
pub proof fn law_the_resource_tells_of_the_function(env: LambdaEnvironment)
    requires
        env.in_lambda(),
    ensures
        ({
            let m = detected_attributes(env);
            &&& m.dom().contains("cloud.provider"@) && m["cloud.provider"@] == ValueView::Text(
                "aws"@,
            )
            &&& m.dom().contains("cloud.platform"@) && m["cloud.platform"@] == ValueView::Text(
                "aws_lambda"@,
            )
            &&& m.dom().contains("cloud.region"@) == (env.region is Some)
            &&& env.region is Some ==> m["cloud.region"@] == ValueView::Text(env.region->0@)
            &&& m.dom().contains("faas.name"@) == (env.function_name is Some)
            &&& env.function_name is Some ==> m["faas.name"@] == ValueView::Text(
                env.function_name->0@,
            )
            &&& m.dom().contains("faas.version"@) == (env.function_version is Some)
            &&& env.function_version is Some ==> m["faas.version"@] == ValueView::Text(
                env.function_version->0@,
            )
            &&& m.dom().contains("faas.max_memory"@) == (env.memory_mb() is Some)
            &&& m.dom().contains("aws.log.group.names"@) == (env.log_group_name is Some)
            &&& env.log_group_name is Some ==> m["aws.log.group.names"@] == ValueView::List(
                seq![env.log_group_name->0@],
            )
            &&& m.dom().contains("faas.instance"@) == (env.log_stream_name is Some)
            &&& env.log_stream_name is Some ==> m["faas.instance"@] == ValueView::Text(
                env.log_stream_name->0@,
            )
        }),
{
    lemma_names_differ();
    lemma_cloud_names_differ();
}

/// The names of the cloud's attributes are told apart, and none is another's.
proof fn lemma_cloud_names_differ()
    ensures
        semconv::CLOUD_PROVIDER@.len() == 14,
        semconv::CLOUD_PLATFORM@.len() == 14,
        semconv::CLOUD_PROVIDER@ != semconv::CLOUD_PLATFORM@,
        semconv::CLOUD_REGION@.len() == 12,
        semconv::CLOUD_REGION@ != semconv::FAAS_VERSION@,
        semconv::CLOUD_REGION@ != semconv::SERVICE_NAME@,
{
    reveal_strlit("cloud.provider");
    reveal_strlit("cloud.platform");
    reveal_strlit("cloud.region");
    reveal_strlit("faas.version");
    reveal_strlit("service.name");
    assert(semconv::CLOUD_PROVIDER@[7] != semconv::CLOUD_PLATFORM@[7]);
    assert(semconv::CLOUD_REGION@[0] != semconv::FAAS_VERSION@[0]);
    assert(semconv::CLOUD_REGION@[0] != semconv::SERVICE_NAME@[0]);
}

/// Inside and outside of Lambda the resource tells who speaks: the extension, as its own
/// service and as its own kit, written in Rust.
pub proof fn law_the_resource_tells_of_the_extension(env: LambdaEnvironment)
    ensures
        ({
            let m = detected_attributes(env);
            &&& m["service.name"@] == ValueView::Text("opentelemetry-lambda-extension"@)
            &&& m["telemetry.sdk.name"@] == ValueView::Text("opentelemetry-lambda-extension"@)
            &&& m["telemetry.sdk.language"@] == ValueView::Text("rust"@)
            &&& m.dom().contains("service.name"@)
            &&& m.dom().contains("telemetry.sdk.name"@)
            &&& m.dom().contains("telemetry.sdk.language"@)
            &&& m.dom().contains("telemetry.sdk.version"@)
            &&& !env.in_lambda() ==> !m.dom().contains("faas.name"@) && !m.dom().contains(
                "cloud.provider"@,
            )
        }),
{
    lemma_names_differ();
    lemma_cloud_names_differ();
}

/// A detected resource names the extension, and in Lambda the function; outside of it, it
/// names nothing of a function. As a list it gives each attribute once.
pub proof fn law_a_detected_resource_names_both(
    env: LambdaEnvironment,
    r: DetectedResource,
    list: model::Resource,
)
    requires
        call_ensures(detect_resource, (&env,), r),
        call_ensures(to_proto_resource, (&r,), list),
    ensures
        r@.dom().contains("service.name"@),
        r@["service.name"@] == ValueView::Text("opentelemetry-lambda-extension"@),
        env.in_lambda() && env.function_name is Some ==> r@.dom().contains("faas.name"@)
            && r@["faas.name"@] == ValueView::Text(env.function_name->0@),
        !env.in_lambda() ==> !r@.dom().contains("faas.name"@),
        forall|k: Seq<char>| #[trigger]
            r@.dom().contains(k) ==> exists|i: int|
                0 <= i < list@.len() && (#[trigger] list@[i]).0 == k && list@[i].1 == r@[k],
        forall|i: int, j: int|
            0 <= i < j < list@.len() ==> (#[trigger] list@[i]).0 != (#[trigger] list@[j]).0,
{
    law_the_resource_tells_of_the_extension(env);
    if env.in_lambda() {
        law_the_resource_tells_of_the_function(env);
    }
    assert forall|k: Seq<char>| #[trigger] r@.dom().contains(k) implies exists|i: int|
        0 <= i < list@.len() && (#[trigger] list@[i]).0 == k && list@[i].1 == r@[k] by {
        let i = choose|i: int| 0 <= i < list@.len() && (#[trigger] list@[i]).0 == k;
        assert(list@[i].1 == r@[k]);
    }
}

/// A builder adds what it is given under its name, in place of what was there, and leaves
/// every other attribute.
pub proof fn law_a_resource_builder_adds_what_it_is_given(
    b: ResourceBuilder,
    key: &str,
    value: &str,
    n: i64,
    flag: bool,
    other: Seq<char>,
    with_string: ResourceBuilder,
    with_int: ResourceBuilder,
    with_bool: ResourceBuilder,
)
    requires
        call_ensures(ResourceBuilder::add_string, (b, key, value), with_string),
        call_ensures(ResourceBuilder::add_int, (b, key, n), with_int),
        call_ensures(ResourceBuilder::add_bool, (b, key, flag), with_bool),
        other != key@,
    ensures
        with_string@.dom().contains(key@) && with_string@[key@] == ValueView::Text(value@),
        with_int@.dom().contains(key@) && with_int@[key@] == ValueView::Int(n),
        with_bool@.dom().contains(key@) && with_bool@[key@] == ValueView::Bool(flag),
        with_string@.dom().contains(other) == b@.dom().contains(other),
        b@.dom().contains(other) ==> with_string@[other] == b@[other] && with_int@[other]
            == b@[other] && with_bool@[other] == b@[other],
{
}

/// A resource gives the value of each of its attributes by name, and no other. An
/// environment without variables is not Lambda's.
pub proof fn law_a_resource_gives_its_attributes(
    r: DetectedResource,
    key: &str,
    v: Option<&AnyValue>,
    e: LambdaEnvironment,
    in_lambda: bool,
)
    requires
        call_ensures(DetectedResource::get, (&r, key), v),
        call_ensures(LambdaEnvironment::empty, (), e),
        call_ensures(LambdaEnvironment::is_lambda, (&e,), in_lambda),
    ensures
        v is Some <==> r@.dom().contains(key@),
        v is Some ==> v->0@ == r@[key@],
        !in_lambda,
        e.function_name is None,
        e.log_group_name is None,
        e.log_stream_name is None,
{
}

/// A builder that detects the environment adds the name of the function to what it has,
/// and keeps what the environment does not name.
pub proof fn law_detecting_adds_to_a_builder(
    b: ResourceBuilder,
    env: LambdaEnvironment,
    after: ResourceBuilder,
    key: Seq<char>,
)
    requires
        call_ensures(ResourceBuilder::detect_lambda_environment, (b, &env), after),
    ensures
        env.in_lambda() && env.function_name is Some ==> after@.dom().contains("faas.name"@)
            && after@["faas.name"@] == ValueView::Text(env.function_name->0@),
        b@.dom().contains(key) ==> after@.dom().contains(key),
        b@.dom().contains(key) && !detected_attributes(env).dom().contains(key) ==> after@[key]
            == b@[key],
{
    if env.in_lambda() {
        law_the_resource_tells_of_the_function(env);
    }
}

} // verus!
