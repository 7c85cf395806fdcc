//! The telemetry lifecycle: configuration with its defaults, the states the
//! process-wide pipeline moves through, and its installation and shutdown.

use crate::injector::{configured_or, or_default};
use opentelemetry_sdk::error::OTelSdkError;
use opentelemetry_sdk::trace::SdkTracerProvider;
use tracing_subscriber::filter::{EnvFilter, ParseError};
use tracing_subscriber::layer::SubscriberExt;
use tracing_subscriber::util::{SubscriberInitExt, TryInitError};
use vstd::prelude::*;
use vstd::string::StringExecFns;
use vstd::utf8::is_ascii_chars;

verus! {

/// `opentelemetry_sdk::trace::SdkTracerProvider`, the handle of the export
/// pipeline. It is carried from initialization to shutdown and never read.
#[verifier::external_type_specification]
#[verifier::external_body]
pub struct ExSdkTracerProvider(opentelemetry_sdk::trace::SdkTracerProvider);

/// `opentelemetry_sdk::error::OTelSdkError`, what a failed shutdown returns.
#[verifier::external_type_specification]
#[verifier::external_body]
pub struct ExOTelSdkError(opentelemetry_sdk::error::OTelSdkError);

/// `tracing_subscriber::filter::EnvFilter`, a parsed verbosity filter.
#[verifier::external_type_specification]
#[verifier::external_body]
pub struct ExEnvFilter(tracing_subscriber::filter::EnvFilter);

/// `tracing_subscriber::filter::ParseError`, what a refused filter
/// expression returns.
#[verifier::external_type_specification]
#[verifier::external_body]
pub struct ExParseError(tracing_subscriber::filter::ParseError);

/// `tracing_subscriber::util::TryInitError`, what a refused installation of
/// the process-wide pipeline returns.
#[verifier::external_type_specification]
#[verifier::external_body]
pub struct ExTryInitError(tracing_subscriber::util::TryInitError);

/// The name under which the service asks the global provider for its tracer.
pub const TRACER_NAME: &'static str = "rust-datadog-otel";

/// The configuration variables as they were found at startup; `None` for a
/// variable that is not set.
#[derive(Clone, Debug)]
pub struct Environment {
    pub dd_service: Option<String>,
    pub dd_version: Option<String>,
    pub dd_env: Option<String>,
    pub dd_agent_host: Option<String>,
    pub host_ip: Option<String>,
    pub rust_log: Option<String>,
}

/// The resolved configuration: every value is either the configured one or
/// its default.
#[derive(Debug)]
pub struct TelemetryConfig {
    pub service_name: String,
    pub service_version: String,
    pub environment: String,
    pub agent_host: String,
    pub log_filter: String,
}

/// Which fields the structured JSON sink writes besides timestamp, level and
/// message.
#[derive(Clone, Copy, Debug)]
pub struct SinkOptions {
    pub current_span: bool,
    pub span_list: bool,
    pub target: bool,
    pub thread_ids: bool,
    pub thread_names: bool,
}

/// Why the telemetry pipeline could not be brought up.
#[derive(Debug)]
pub enum InitError {
    /// The verbosity filter expression is not ASCII text or not a valid filter.
    InvalidFilter,
    /// A process-wide logging pipeline is installed already.
    DoubleInitialization,
}

/// A flush-and-close that failed or timed out, with the provider's own
/// description of it.
#[derive(Debug)]
pub struct ShutdownFailure {
    pub detail: String,
}

/// The running telemetry: the provider that must be shut down before the
/// process exits, and the configuration it was started with.
pub struct Telemetry {
    pub provider: SdkTracerProvider,
    pub config: TelemetryConfig,
}

/// Whether `EnvFilter::try_new` accepts a filter expression.
pub uninterp spec fn filter_parses(expr: Seq<char>) -> bool;

/// Whether a filter expression is taken as the verbosity filter: it is ASCII
/// text that `EnvFilter::try_new` accepts.
pub open spec fn filter_accepted(expr: Seq<char>) -> bool {
    is_ascii_chars(expr) && filter_parses(expr)
}

/// The agent host: `DD_AGENT_HOST`, else `HOST_IP`, else `localhost`.
pub open spec fn resolved_agent_host(env: Environment) -> Seq<char> {
    match env.dd_agent_host {
        Some(h) => h@,
        None => or_default(env.host_ip, "localhost"@),
    }
}

/// Whether `config` is what `env` resolves to.
pub open spec fn resolves_to(env: Environment, config: TelemetryConfig) -> bool {
    &&& config.service_name@ == or_default(env.dd_service, "rust-datadog-otel"@)
    &&& config.service_version@ == or_default(env.dd_version, "0.1.0"@)
    &&& config.environment@ == or_default(env.dd_env, "development"@)
    &&& config.agent_host@ == resolved_agent_host(env)
    &&& config.log_filter@ == or_default(env.rust_log, "info,rust_datadog_otel=debug"@)
}

/// Resolves the configuration: a variable that is not set silently takes its
/// default.
pub fn resolve_config(env: Environment) -> (config: TelemetryConfig)
    ensures
        resolves_to(env, config),
{
    let agent_host = match env.dd_agent_host {
        Some(h) => h,
        None => configured_or(env.host_ip, "localhost"),
    };
    TelemetryConfig {
        service_name: configured_or(env.dd_service, "rust-datadog-otel"),
        service_version: configured_or(env.dd_version, "0.1.0"),
        environment: configured_or(env.dd_env, "development"),
        agent_host,
        log_filter: configured_or(env.rust_log, "info,rust_datadog_otel=debug"),
    }
}

/// The sink as the service configures it: every optional field switched on.
pub fn default_sink_options() -> (o: SinkOptions)
    ensures
        o.current_span && o.span_list && o.target && o.thread_ids && o.thread_names,
{
    SinkOptions {
        current_span: true,
        span_list: true,
        target: true,
        thread_ids: true,
        thread_names: true,
    }
}

fn labelled(label: &str, value: &String) -> (line: String)
    ensures
        line@ == label@ + value@,
{
    String::from_str(label).concat(value.as_str())
}

/// The lines announced on the console before the pipeline is brought up.
pub fn startup_banner(config: &TelemetryConfig) -> (lines: Vec<String>)
    ensures
        lines@.len() == 5,
        lines@[0]@ == "Initializing Datadog APM"@,
        lines@[1]@ == "  Service: "@ + config.service_name@,
        lines@[2]@ == "  Version: "@ + config.service_version@,
        lines@[3]@ == "  Environment: "@ + config.environment@,
        lines@[4]@ == "  Agent Host: "@ + config.agent_host@,
{
    let mut lines: Vec<String> = Vec::new();
    lines.push(String::from_str("Initializing Datadog APM"));
    lines.push(labelled("  Service: ", &config.service_name));
    lines.push(labelled("  Version: ", &config.service_version));
    lines.push(labelled("  Environment: ", &config.environment));
    lines.push(labelled("  Agent Host: ", &config.agent_host));
    lines
}

/// Builds the Datadog tracer provider and registers it, with its propagator,
/// as the process-wide provider: `datadog_opentelemetry::tracing().init()`.
/// The provider configures itself from the process environment, so nothing
/// is said of it.
#[verifier::external_body]
fn install_provider() -> (provider: SdkTracerProvider) {
    datadog_opentelemetry::tracing().init()
}

/// Parses a filter expression with `EnvFilter::try_new`, which accepts it or
/// not by the expression alone. The parser cuts the expression at byte
/// offsets, which is safe on ASCII text, so only that is handed to it.
#[verifier::external_body]
fn parse_filter(expr: &str) -> (r: Result<EnvFilter, ParseError>)
    requires
        is_ascii_chars(expr@),
    ensures
        r is Ok <==> filter_parses(expr@),
{
    EnvFilter::try_new(expr)
}

/// Composes the logging pipeline and installs it as the process-wide default:
/// `tracing_subscriber::registry()` with, in order, the filter, the bridge
/// `tracing_opentelemetry::layer()` over `opentelemetry::global::tracer`, and
/// the JSON sink `tracing_subscriber::fmt::layer().json()`, then `try_init`.
/// Whether the installation succeeds depends on what the process installed
/// before, so nothing is said of the result.
#[verifier::external_body]
fn install_pipeline(filter: EnvFilter, tracer_name: &'static str, sink: SinkOptions) -> (r: Result<
    (),
    TryInitError,
>) {
    let bridge = tracing_opentelemetry::layer().with_tracer(opentelemetry::global::tracer(tracer_name));
    let json = tracing_subscriber::fmt::layer()
        .json()
        .with_current_span(sink.current_span)
        .with_span_list(sink.span_list)
        .with_target(sink.target)
        .with_thread_ids(sink.thread_ids)
        .with_thread_names(sink.thread_names);
    tracing_subscriber::registry().with(filter).with(bridge).with(json).try_init()
}

/// Flushes and closes the provider with `SdkTracerProvider::shutdown`, which
/// blocks until the buffered spans are exported or its timeout elapses.
#[verifier::external_body]
fn shutdown_provider(provider: &SdkTracerProvider) -> (r: Result<(), OTelSdkError>) {
    provider.shutdown()
}

/// The provider's description of a failed shutdown, as `Debug` formats the
/// `OTelSdkError`.
#[verifier::external_body]
fn describe_sdk_error(e: &OTelSdkError) -> (detail: String) {
    format!("{:?}", e)
}

/// The result of initialization once the pipeline installation has answered:
/// the running telemetry if it was installed, `DoubleInitialization` if the
/// process had a pipeline already.
pub fn conclude_init(
    provider: SdkTracerProvider,
    config: TelemetryConfig,
    installed: Result<(), TryInitError>,
) -> (r: Result<Telemetry, InitError>)
    ensures
        match r {
            Ok(t) => installed is Ok && t.provider == provider && t.config == config,
            Err(e) => installed is Err && e is DoubleInitialization,
        },
{
    match installed {
        Ok(_) => Ok(Telemetry { provider, config }),
        Err(_) => Err(InitError::DoubleInitialization),
    }
}

/// Brings the telemetry up with a filter expression that has been parsed:
/// `InvalidFilter` exactly when the expression was refused, and then before
/// anything process-wide is touched; otherwise the tracer provider is
/// registered and the outcome is that of the pipeline's installation.
pub fn init_with_filter(config: TelemetryConfig, parsed: Result<EnvFilter, ParseError>) -> (r:
    Result<Telemetry, InitError>)
    ensures
        parsed is Err <==> (r matches Err(e) && e is InvalidFilter),
        r matches Ok(t) ==> t.config == config,
{
    match parsed {
        Ok(filter) => {
            let provider = install_provider();
            let installed = install_pipeline(filter, TRACER_NAME, default_sink_options());
            conclude_init(provider, config, installed)
        },
        Err(_) => Err(InitError::InvalidFilter),
    }
}

/// Brings the telemetry up: resolves the configuration, registers the tracer
/// provider, and installs the logging pipeline. Fails with `InvalidFilter`
/// exactly when the resolved filter expression is not accepted; otherwise the
/// outcome is that of the installation, and a success carries the resolved
/// configuration.
pub fn init_telemetry(env: Environment) -> (r: Result<Telemetry, InitError>)
    ensures
        !filter_accepted(or_default(env.rust_log, "info,rust_datadog_otel=debug"@)) <==> (r matches Err(
            e,
        ) && e is InvalidFilter),
        r matches Ok(t) ==> resolves_to(env, t.config),
{
    let config = resolve_config(env);
    if !config.log_filter.as_str().is_ascii() {
        return Err(InitError::InvalidFilter);
    }
    let parsed = parse_filter(config.log_filter.as_str());
    init_with_filter(config, parsed)
}

/// What a shutdown reports once the provider has answered: success, or the
/// failure with its description.
pub fn report_shutdown(outcome: Result<(), String>) -> (r: Result<(), ShutdownFailure>)
    ensures
        match r {
            Ok(_) => outcome is Ok,
            Err(f) => outcome == Err::<(), String>(f.detail),
        },
{
    match outcome {
        Ok(_) => Ok(()),
        Err(detail) => Err(ShutdownFailure { detail }),
    }
}

/// Flushes and closes the provider. A failure is reported to the caller and
/// never stops the process from exiting.
pub fn shutdown_telemetry(tracer_provider: SdkTracerProvider) -> (r: Result<(), ShutdownFailure>) {
    match shutdown_provider(&tracer_provider) {
        Ok(_) => report_shutdown(Ok(())),
        Err(e) => report_shutdown(Err(describe_sdk_error(&e))),
    }
}

} // verus!
