//! Telemetry: what a runtime is asked to report, and how that becomes options of Core.

use std::collections::HashMap;
use std::time::Duration;
use temporalio_common::telemetry::{
    construct_filter_string, Logger, OtelCollectorOptions, TelemetryOptions,
};
use temporalio_sdk_core::RuntimeOptions;
use tracing::Level;
use url::{ParseError, Url};
use vstd::prelude::*;

verus! {

/// Options of the telemetry that Core sets up before its thread pool exists.
#[verifier::external_type_specification]
#[verifier::external_body]
pub struct ExTelemetryOptions(TelemetryOptions);

/// Options of a Core runtime.
#[verifier::external_type_specification]
#[verifier::external_body]
pub struct ExRuntimeOptions(RuntimeOptions);

/// Options of an exporter that sends metrics to an OpenTelemetry collector.
#[verifier::external_type_specification]
#[verifier::external_body]
pub struct ExOtelCollectorOptions(OtelCollectorOptions);

/// A parsed absolute URL.
#[verifier::external_type_specification]
#[verifier::external_body]
pub struct ExUrl(Url);

/// Why a text is no absolute URL.
#[verifier::external_type_specification]
#[verifier::external_body]
pub struct ExParseError(ParseError);

/// How important a log line is.
#[derive(Clone, Copy, Debug, PartialEq, Eq, Structural)]
pub enum LogLevel {
    Error,
    Warn,
    Info,
    Debug,
    Trace,
}

/// The name of a level, as it stands in filters and log lines.
pub open spec fn level_name(level: LogLevel) -> Seq<char> {
    match level {
        LogLevel::Error => "ERROR"@,
        LogLevel::Warn => "WARN"@,
        LogLevel::Info => "INFO"@,
        LogLevel::Debug => "DEBUG"@,
        LogLevel::Trace => "TRACE"@,
    }
}

/// The filter that lets the modules of Core log at `core` and everything else at `other`.
pub open spec fn filter_text(core: LogLevel, other: LogLevel) -> Seq<char> {
    level_name(other) + ",temporalio_common="@ + level_name(core) + ",temporalio_sdk_core="@
        + level_name(core) + ",temporalio_client="@ + level_name(core) + ",temporalio_sdk="@
        + level_name(core)
}

/// What [`Url::parse`] makes of a text.
pub uninterp spec fn parsed_url(text: Seq<char>) -> Result<Url, ParseError>;

/// The message that [`ParseError`] displays as.
pub uninterp spec fn url_error_text(error: ParseError) -> Seq<char>;

/// The time span of `secs` seconds and `nanos` nanoseconds.
pub uninterp spec fn time_span(secs: u64, nanos: u32) -> Duration;

/// The telemetry options that forward logs through `filter` and name the service on metrics as
/// `attach_service_name` says, everything else left as Core has it.
pub uninterp spec fn forwarding_telemetry(
    filter: Seq<char>,
    attach_service_name: bool,
) -> TelemetryOptions;

/// The runtime options with the given telemetry, everything else left as Core has it.
pub uninterp spec fn runtime_options_with(telemetry: TelemetryOptions) -> RuntimeOptions;

/// The collector options with the given destination, headers, period and tags, everything else
/// left as Core has it.
pub uninterp spec fn collector_options(
    url: Url,
    headers: Map<String, String>,
    metric_periodicity: Duration,
    global_tags: Map<String, String>,
) -> OtelCollectorOptions;

/// Calls `temporalio_common::telemetry::construct_filter_string`, whose text is written out in
/// [`filter_text`].
#[verifier::external_body]
fn filter_string(core: LogLevel, other: LogLevel) -> (filter: String)
    ensures
        filter@ == filter_text(core, other),
{
    let core = match core {
        LogLevel::Error => Level::ERROR,
        LogLevel::Warn => Level::WARN,
        LogLevel::Info => Level::INFO,
        LogLevel::Debug => Level::DEBUG,
        LogLevel::Trace => Level::TRACE,
    };
    let other = match other {
        LogLevel::Error => Level::ERROR,
        LogLevel::Warn => Level::WARN,
        LogLevel::Info => Level::INFO,
        LogLevel::Debug => Level::DEBUG,
        LogLevel::Trace => Level::TRACE,
    };
    construct_filter_string(core, other)
}

/// Calls `url::Url::parse`.
#[verifier::external_body]
fn parse_url(text: &str) -> (url: Result<Url, ParseError>)
    ensures
        url == parsed_url(text@),
{
    Url::parse(text)
}

/// Calls the `to_string` that `url::ParseError` has through `Display`.
#[verifier::external_body]
fn url_error_message(error: &ParseError) -> (message: String)
    ensures
        message@ == url_error_text(*error),
{
    error.to_string()
}

/// Calls `Duration::new`. The nanoseconds stay below a whole second, so nothing is carried over.
#[verifier::external_body]
fn new_duration(secs: u64, nanos: u32) -> (span: Duration)
    requires
        nanos < 1_000_000_000,
    ensures
        span == time_span(secs, nanos),
{
    Duration::new(secs, nanos)
}

/// Builds a `TelemetryOptions` with its builder, setting `logging` and `attach_service_name`.
#[verifier::external_body]
fn telemetry_options(filter: String, attach_service_name: bool) -> (options: TelemetryOptions)
    ensures
        options == forwarding_telemetry(filter@, attach_service_name),
{
    TelemetryOptions::builder()
        .logging(Logger::Forward { filter })
        .attach_service_name(attach_service_name)
        .build()
}

/// Builds a `RuntimeOptions` with its builder, setting `telemetry_options`. The builder refuses
/// only a heartbeat interval outside of one to sixty seconds, and the interval that it sets by
/// itself is sixty seconds.
#[verifier::external_body]
pub(crate) fn runtime_options(telemetry: TelemetryOptions) -> (options: Result<RuntimeOptions, String>)
    ensures
        options is Ok,
        options->Ok_0 == runtime_options_with(telemetry),
{
    RuntimeOptions::builder().telemetry_options(telemetry).build()
}

/// Builds an `OtelCollectorOptions` with its builder, setting the four options that it takes.
#[verifier::external_body]
fn otel_options(
    url: Url,
    headers: HashMap<String, String>,
    metric_periodicity: Duration,
    global_tags: HashMap<String, String>,
) -> (options: OtelCollectorOptions)
    ensures
        options == collector_options(url, headers@, metric_periodicity, global_tags@),
{
    OtelCollectorOptions::builder()
        .url(url)
        .metric_periodicity(metric_periodicity)
        .headers(headers)
        .global_tags(global_tags)
        .build()
}

/// Where a Prometheus exporter listens.
#[derive(Clone, Copy, Debug, PartialEq, Eq)]
pub enum SocketAddress {
    V4 { octets: [u8; 4], port: u16 },
    V6 { segments: [u16; 8], port: u16, flowinfo: u32, scope_id: u32 },
}

/// The metrics that the Haskell side asks for.
pub enum HsTelemetryOptions {
    OtelTelemetryOptions {
        url: String,
        headers: HashMap<String, String>,
        metric_periodicity: Option<Duration>,
        global_tags: HashMap<String, String>,
    },
    PrometheusTelemetryOptions {
        socket_addr: SocketAddress,
        global_tags: HashMap<String, String>,
        counters_total_suffix: bool,
        unit_suffix: bool,
    },
    NoTelemetry,
}

/// The meter to start for a runtime.
pub enum MeterPlan {
    /// One that records nothing.
    NoOp,
    /// One that sends to an OpenTelemetry collector.
    Otel(OtelCollectorOptions),
    /// One that serves Prometheus.
    Prometheus {
        socket_addr: SocketAddress,
        unit_suffix: bool,
        global_tags: HashMap<String, String>,
        counters_total_suffix: bool,
    },
}

/// A result with its error message as text.
pub open spec fn outcome<T>(result: Result<T, String>) -> Result<T, Seq<char>> {
    match result {
        Ok(value) => Ok(value),
        Err(message) => Err(message@),
    }
}

/// The time between two exports: the one asked for, else one second.
pub open spec fn export_period(metric_periodicity: Option<Duration>) -> Duration {
    match metric_periodicity {
        Some(period) => period,
        None => time_span(1, 0),
    }
}

/// The meter for a collector whose address was parsed to `url`: a failed parse fails with the
/// parser's message.
pub open spec fn planned_otel_meter(
    url: Result<Url, ParseError>,
    headers: Map<String, String>,
    metric_periodicity: Option<Duration>,
    global_tags: Map<String, String>,
) -> Result<MeterPlan, Seq<char>> {
    match url {
        Ok(url) => Ok(
            MeterPlan::Otel(
                collector_options(url, headers, export_period(metric_periodicity), global_tags),
            ),
        ),
        Err(error) => Err(url_error_text(error)),
    }
}

/// The meter that the given options ask for.
pub open spec fn planned_meter(late: HsTelemetryOptions) -> Result<MeterPlan, Seq<char>> {
    match late {
        HsTelemetryOptions::NoTelemetry => Ok(MeterPlan::NoOp),
        HsTelemetryOptions::OtelTelemetryOptions {
            url,
            headers,
            metric_periodicity,
            global_tags,
        } => planned_otel_meter(parsed_url(url@), headers@, metric_periodicity, global_tags@),
        HsTelemetryOptions::PrometheusTelemetryOptions {
            socket_addr,
            global_tags,
            counters_total_suffix,
            unit_suffix,
        } => Ok(
            MeterPlan::Prometheus { socket_addr, unit_suffix, global_tags, counters_total_suffix },
        ),
    }
}

/// The telemetry that every runtime starts with: the logs of Core from `INFO` on and all other
/// logs from `ERROR` on are forwarded, and metrics name the service.
pub open spec fn early_telemetry() -> TelemetryOptions {
    forwarding_telemetry(filter_text(LogLevel::Info, LogLevel::Error), true)
}

/// Builds the options of [`early_telemetry`].
pub fn early_options() -> (options: TelemetryOptions)
    ensures
        options == early_telemetry(),
{
    telemetry_options(filter_string(LogLevel::Info, LogLevel::Error), true)
}

/// Plans the meter for a collector, from what parsing its address gave.
pub fn otel_meter(
    url: Result<Url, ParseError>,
    headers: HashMap<String, String>,
    metric_periodicity: Option<Duration>,
    global_tags: HashMap<String, String>,
) -> (plan: Result<MeterPlan, String>)
    ensures
        outcome(plan) == planned_otel_meter(url, headers@, metric_periodicity, global_tags@),
        match url {
            Ok(url) => {
                &&& plan is Ok
                &&& plan->Ok_0 == MeterPlan::Otel(
                    collector_options(
                        url,
                        headers@,
                        match metric_periodicity {
                            Some(period) => period,
                            None => time_span(1, 0),
                        },
                        global_tags@,
                    ),
                )
            },
            Err(error) => plan is Err && plan->Err_0@ == url_error_text(error),
        },
{
    match url {
        Ok(url) => {
            let period = match metric_periodicity {
                Some(period) => period,
                None => new_duration(1, 0),
            };
            Ok(MeterPlan::Otel(otel_options(url, headers, period, global_tags)))
        },
        Err(error) => Err(url_error_message(&error)),
    }
}

/// Plans the meter that the given options ask for. Only the address of a collector can be
/// refused.
pub fn meter_plan(late: HsTelemetryOptions) -> (plan: Result<MeterPlan, String>)
    ensures
        outcome(plan) == planned_meter(late),
        plan is Ok ==> (plan->Ok_0 is NoOp <==> late is NoTelemetry),
        plan is Ok ==> (plan->Ok_0 is Otel <==> late is OtelTelemetryOptions),
        plan is Ok ==> (plan->Ok_0 is Prometheus <==> late is PrometheusTelemetryOptions),
        late matches HsTelemetryOptions::PrometheusTelemetryOptions {
            socket_addr,
            global_tags,
            counters_total_suffix,
            unit_suffix,
        } ==> plan is Ok && plan->Ok_0 == (MeterPlan::Prometheus {
            socket_addr,
            unit_suffix,
            global_tags,
            counters_total_suffix,
        }),
{
    match late {
        HsTelemetryOptions::NoTelemetry => Ok(MeterPlan::NoOp),
        HsTelemetryOptions::OtelTelemetryOptions {
            url,
            headers,
            metric_periodicity,
            global_tags,
        } => otel_meter(parse_url(url.as_str()), headers, metric_periodicity, global_tags),
        HsTelemetryOptions::PrometheusTelemetryOptions {
            socket_addr,
            global_tags,
            counters_total_suffix,
            unit_suffix,
        } => Ok(
            MeterPlan::Prometheus { socket_addr, unit_suffix, global_tags, counters_total_suffix },
        ),
    }
}

/// Nothing is lost when a message is read as text: a value stays that value, and a failure keeps
/// its message letter for letter.
pub proof fn law_outcome_keeps_value_and_message<T>(result: Result<T, String>)
    ensures
        outcome(result) is Ok <==> result is Ok,
        result is Ok ==> outcome(result)->Ok_0 == result->Ok_0,
        result is Err ==> outcome(result)->Err_0 == result->Err_0@,
{
}

/// A collector whose address parses is planned as it was asked for: with that address, exactly
/// those headers, exactly that period and exactly those tags, whatever each of them is.
pub proof fn law_collector_is_planned_as_asked_for(
    url: Url,
    headers: Map<String, String>,
    period: Duration,
    global_tags: Map<String, String>,
)
    ensures
        planned_otel_meter(Ok(url), headers, Some(period), global_tags) == Ok::<
            MeterPlan,
            Seq<char>,
        >(MeterPlan::Otel(collector_options(url, headers, period, global_tags))),
{
}

/// Asking for no period is asking for one second, and makes no other difference: address, headers
/// and tags come out the same.
pub proof fn law_no_period_means_one_second(
    url: Result<Url, ParseError>,
    headers: Map<String, String>,
    global_tags: Map<String, String>,
)
    ensures
        planned_otel_meter(url, headers, None, global_tags) == planned_otel_meter(
            url,
            headers,
            Some(time_span(1, 0)),
            global_tags,
        ),
{
}

/// A collector is refused exactly if its address does not parse, whatever else was asked for, and
/// then with the parser's message.
pub proof fn law_collector_is_refused_only_for_its_address(
    url: Result<Url, ParseError>,
    headers: Map<String, String>,
    metric_periodicity: Option<Duration>,
    global_tags: Map<String, String>,
)
    ensures
        planned_otel_meter(url, headers, metric_periodicity, global_tags) is Err <==> url is Err,
        url is Err ==> planned_otel_meter(
            url,
            headers,
            metric_periodicity,
            global_tags,
        )->Err_0 == url_error_text(url->Err_0),
{
}

/// The configured collector is the one planned: options that ask for a collector go by their own
/// address, headers, period and tags.
pub proof fn law_configured_collector_is_planned(
    url: String,
    headers: HashMap<String, String>,
    metric_periodicity: Option<Duration>,
    global_tags: HashMap<String, String>,
)
    ensures
        ({
            let planned = planned_meter(
                HsTelemetryOptions::OtelTelemetryOptions {
                    url,
                    headers,
                    metric_periodicity,
                    global_tags,
                },
            );
            &&& planned is Ok <==> parsed_url(url@) is Ok
            &&& planned is Err ==> planned->Err_0 == url_error_text(parsed_url(url@)->Err_0)
            &&& planned is Ok && metric_periodicity is Some ==> planned->Ok_0 == MeterPlan::Otel(
                collector_options(
                    parsed_url(url@)->Ok_0,
                    headers@,
                    metric_periodicity->0,
                    global_tags@,
                ),
            )
            &&& planned is Ok && metric_periodicity is None ==> planned->Ok_0 == MeterPlan::Otel(
                collector_options(
                    parsed_url(url@)->Ok_0,
                    headers@,
                    time_span(1, 0),
                    global_tags@,
                ),
            )
        }),
{
}

/// A Prometheus exporter is planned as it was asked for: address, tags and both suffixes are each
/// what the options say, for all values of both, and it is never refused here.
pub proof fn law_prometheus_is_planned_as_asked_for(
    socket_addr: SocketAddress,
    global_tags: HashMap<String, String>,
    counters_total_suffix: bool,
    unit_suffix: bool,
)
    ensures
        planned_meter(
            HsTelemetryOptions::PrometheusTelemetryOptions {
                socket_addr,
                global_tags,
                counters_total_suffix,
                unit_suffix,
            },
        ) matches Ok(plan) && plan matches MeterPlan::Prometheus {
            socket_addr: planned_address,
            unit_suffix: planned_unit,
            global_tags: planned_tags,
            counters_total_suffix: planned_total,
        } && {
            &&& planned_address == socket_addr
            &&& planned_tags == global_tags
            &&& planned_total == counters_total_suffix
            &&& planned_unit == unit_suffix
        },
{
}

/// The kind of meter planned is the kind asked for; in particular metrics go nowhere only if none
/// were asked for. Only a collector can be refused.
pub proof fn law_meter_is_of_the_kind_asked_for(late: HsTelemetryOptions)
    ensures
        planned_meter(late) is Err ==> late is OtelTelemetryOptions,
        planned_meter(late) is Ok ==> {
            &&& planned_meter(late)->Ok_0 is NoOp <==> late is NoTelemetry
            &&& planned_meter(late)->Ok_0 is Otel <==> late is OtelTelemetryOptions
            &&& planned_meter(late)->Ok_0 is Prometheus <==> late is PrometheusTelemetryOptions
        },
{
}

/// Every runtime forwards the logs of Core from `INFO` on and all others from `ERROR` on, and names
/// the service on its metrics.
pub proof fn law_early_telemetry_forwards_logs()
    ensures
        early_telemetry() == forwarding_telemetry(
            "ERROR,temporalio_common=INFO,temporalio_sdk_core=INFO,temporalio_client=INFO,temporalio_sdk=INFO"@,
            true,
        ),
{
    reveal_strlit("ERROR");
    reveal_strlit("INFO");
    reveal_strlit(",temporalio_common=");
    reveal_strlit(",temporalio_sdk_core=");
    reveal_strlit(",temporalio_client=");
    reveal_strlit(",temporalio_sdk=");
    reveal_strlit(
        "ERROR,temporalio_common=INFO,temporalio_sdk_core=INFO,temporalio_client=INFO,temporalio_sdk=INFO",
    );
    assert(filter_text(LogLevel::Info, LogLevel::Error)
        =~= "ERROR,temporalio_common=INFO,temporalio_sdk_core=INFO,temporalio_client=INFO,temporalio_sdk=INFO"@);
}

} // verus!
