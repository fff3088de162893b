use std::collections::HashMap;
use std::time::Duration;
use temporal_bridge::array::copied_bytes;
use temporal_bridge::callback::{HsAction, Slot};
use temporal_bridge::init::{hs_temporal_init_runtime, init_ended};
use temporal_bridge::runtime::{hs_temporal_test_runtime_live_count, CoreRuntimes};
use temporal_bridge::telemetry::{
    early_options, meter_plan, otel_meter, HsTelemetryOptions, MeterPlan, SocketAddress,
};
use temporalio_common::telemetry::{Logger, OtelCollectorOptions};
use temporalio_sdk_core::{CoreRuntime, RuntimeOptions, TokioRuntimeBuilder};

fn pairs(entries: &[(&str, &str)]) -> HashMap<String, String> {
    let mut map = HashMap::new();
    for (key, value) in entries {
        map.insert((*key).to_owned(), (*value).to_owned());
    }
    map
}

fn otel(url: &str, metric_periodicity: Option<Duration>) -> HsTelemetryOptions {
    HsTelemetryOptions::OtelTelemetryOptions {
        url: url.to_owned(),
        headers: pairs(&[("authorization", "token")]),
        metric_periodicity,
        global_tags: pairs(&[("env", "test"), ("team", "core")]),
    }
}

fn collector(plan: Result<MeterPlan, String>) -> OtelCollectorOptions {
    match plan {
        Ok(MeterPlan::Otel(options)) => options,
        _ => panic!("a collector was asked for"),
    }
}

#[test]
fn early_options_forward_core_from_info_and_others_from_error() {
    let options = early_options();
    match options.logging {
        Some(Logger::Forward { filter }) => assert_eq!(
            filter,
            "ERROR,temporalio_common=INFO,temporalio_sdk_core=INFO,\
             temporalio_client=INFO,temporalio_sdk=INFO"
        ),
        _ => panic!("logs are forwarded"),
    }
    assert!(options.attach_service_name);
    assert!(options.metrics.is_none());
}

#[test]
fn no_telemetry_plans_a_meter_that_records_nothing() {
    assert!(matches!(
        meter_plan(HsTelemetryOptions::NoTelemetry),
        Ok(MeterPlan::NoOp)
    ));
}

#[test]
fn collector_gets_what_was_asked_for() {
    let options = collector(meter_plan(otel(
        "http://LOCALHOST:4317",
        Some(Duration::new(2, 5)),
    )));
    assert_eq!(options.url.as_str(), "http://localhost:4317/");
    assert_eq!(options.headers, pairs(&[("authorization", "token")]));
    assert_eq!(options.metric_periodicity, Duration::new(2, 5));
    assert_eq!(
        options.global_tags,
        pairs(&[("env", "test"), ("team", "core")])
    );
}

#[test]
fn collector_is_served_every_second_by_default() {
    let options = collector(meter_plan(otel("http://localhost:4317", None)));
    assert_eq!(options.metric_periodicity, Duration::from_secs(1));
}

#[test]
fn collector_address_that_does_not_parse_is_refused() {
    for (url, message) in [
        ("localhost", "relative URL without a base"),
        ("http://", "empty host"),
        ("http://localhost:port", "invalid port number"),
    ] {
        match meter_plan(otel(url, None)) {
            Err(refused) => assert_eq!(refused, message),
            Ok(_) => panic!("no absolute URL"),
        }
    }
}

#[test]
fn collector_is_planned_from_a_parse_result() {
    let parsed = url::Url::parse("https://collector.example/v1");
    let options = collector(otel_meter(parsed, pairs(&[]), None, pairs(&[])));
    assert_eq!(options.url.as_str(), "https://collector.example/v1");
    let refused = otel_meter(
        Err(url::ParseError::InvalidIpv6Address),
        pairs(&[]),
        None,
        pairs(&[]),
    );
    assert_eq!(refused.err(), Some("invalid IPv6 address".to_owned()));
}

#[test]
fn prometheus_gets_what_was_asked_for() {
    let planned = meter_plan(HsTelemetryOptions::PrometheusTelemetryOptions {
        socket_addr: SocketAddress::V4 {
            octets: [127, 0, 0, 1],
            port: 9090,
        },
        global_tags: pairs(&[("env", "test")]),
        counters_total_suffix: true,
        unit_suffix: false,
    });
    match planned {
        Ok(MeterPlan::Prometheus {
            socket_addr,
            unit_suffix,
            global_tags,
            counters_total_suffix,
        }) => {
            assert_eq!(
                socket_addr,
                SocketAddress::V4 {
                    octets: [127, 0, 0, 1],
                    port: 9090
                }
            );
            assert!(!unit_suffix);
            assert!(counters_total_suffix);
            assert_eq!(global_tags, pairs(&[("env", "test")]));
        }
        _ => panic!("Prometheus was asked for"),
    }
}

#[test]
fn configuration_that_does_not_decode_ends_it_all() {
    let request = hs_temporal_init_runtime(Err("expected value".to_owned()));
    assert_eq!(request.err(), Some("expected value".to_owned()));
}

#[test]
fn runtime_comes_up_stage_by_stage() {
    let request = hs_temporal_init_runtime(Ok(HsTelemetryOptions::NoTelemetry))
        .ok()
        .unwrap();
    let request = request
        .pending
        .core_built::<_>(Ok::<&str, String>("core"))
        .ok()
        .unwrap();
    assert!(matches!(request.plan, MeterPlan::NoOp));
    assert_eq!(*request.pending.core_runtime(), "core");
    let request = request.pending.meter_started(Ok("meter")).ok().unwrap();
    assert_eq!((request.runtime, request.core_meter), ("core", "meter"));
}

#[test]
fn options_of_the_first_stage_build_core_with_its_logs_forwarded() {
    let request = hs_temporal_init_runtime(Ok(HsTelemetryOptions::NoTelemetry))
        .ok()
        .unwrap();
    let forwarding =
        CoreRuntime::new(request.options, TokioRuntimeBuilder::default()).unwrap();
    assert!(forwarding.telemetry().trace_subscriber().is_some());
    let silent = CoreRuntime::new(
        RuntimeOptions::builder().build().unwrap(),
        TokioRuntimeBuilder::default(),
    )
    .unwrap();
    assert!(silent.telemetry().trace_subscriber().is_none());
}

#[test]
fn core_that_is_not_built_ends_it_before_the_meter() {
    let request = hs_temporal_init_runtime(Ok(otel("no url", None)))
        .ok()
        .unwrap();
    let request = request
        .pending
        .core_built(Err::<u32, String>("no threads".to_owned()));
    assert_eq!(request.err(), Some("no threads".to_owned()));
}

#[test]
fn collector_address_is_refused_once_core_is_built() {
    let request = hs_temporal_init_runtime(Ok(otel("no url", None)))
        .ok()
        .unwrap();
    let request = request.pending.core_built(Ok::<u32, String>(1));
    assert_eq!(
        request.err(),
        Some("relative URL without a base".to_owned())
    );
}

#[test]
fn meter_that_does_not_start_ends_it() {
    let request = hs_temporal_init_runtime(Ok(HsTelemetryOptions::NoTelemetry))
        .ok()
        .unwrap();
    let request = request
        .pending
        .core_built(Ok::<u32, String>(1))
        .ok()
        .unwrap();
    let request = request
        .pending
        .meter_started(Err::<u32, String>("address in use".to_owned()));
    assert_eq!(request.err(), Some("address in use".to_owned()));
}

#[test]
fn runtime_that_is_up_goes_into_the_result_slot() {
    let mut runtimes = CoreRuntimes::new();
    let action = init_ended(
        &mut runtimes,
        Ok(("core", "dropper")),
        6_u8,
        Slot::at(40),
        Slot::at(50),
    );
    match action {
        HsAction::SetResult {
            result_slot,
            result: Some(handle),
        } => {
            assert_eq!(result_slot.address, 40);
            assert_eq!(*runtimes.core_runtime(&handle.runtime), "core");
            assert_eq!(runtimes.holders(&handle.runtime), Some(1));
        }
        _ => panic!("only the result slot is written"),
    }
    assert_eq!(hs_temporal_test_runtime_live_count(&runtimes), 1);
}

#[test]
fn failure_to_come_up_goes_into_the_error_slot() {
    let mut runtimes = CoreRuntimes::<&str, &str>::new();
    let action = init_ended(
        &mut runtimes,
        Err("bad JSON".to_owned()),
        6_u8,
        Slot::at(40),
        Slot::at(50),
    );
    match action {
        HsAction::SetError {
            error_slot,
            error: Some(payload),
        } => {
            assert_eq!(error_slot.address, 50);
            assert_eq!(copied_bytes(&payload), b"bad JSON".to_vec());
        }
        _ => panic!("only the error slot is written"),
    }
    assert_eq!(hs_temporal_test_runtime_live_count(&runtimes), 0);
}
