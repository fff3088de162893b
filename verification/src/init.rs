//! How a runtime comes up.
//!
//! Coming up takes outside work: Core is built, its late meter is started and attached. Each stage
//! here says what to do next and is told what came of it. The first failure ends the whole.

use crate::array::{array_bytes, hs_error_message};
use crate::callback::{HsAction, Slot};
use crate::runtime::{started, CoreRuntimes, RuntimeRef};
use crate::telemetry::{
    collector_options, early_options, early_telemetry, meter_plan, outcome, parsed_url,
    planned_meter, runtime_options, runtime_options_with, time_span, url_error_text,
    HsTelemetryOptions, MeterPlan,
};
use ffi_convert::CArray;
use temporalio_common::telemetry::TelemetryOptions;
use temporalio_sdk_core::RuntimeOptions;
use vstd::prelude::*;
use vstd::utf8::encode_utf8;

verus! {

/// Core is to be built with these options.
pub struct CoreRequest {
    pub options: RuntimeOptions,
    pub pending: AwaitCore,
}

/// Waiting for Core to be built.
pub struct AwaitCore {
    late_telemetry_options: HsTelemetryOptions,
}

/// A meter is to be started, with the thread pool of Core at hand.
pub struct MeterRequest<C> {
    pub plan: MeterPlan,
    pub pending: AwaitMeter<C>,
}

/// Waiting for the meter to be started.
pub struct AwaitMeter<C> {
    runtime: C,
}

/// The meter is to be attached to Core, which is then up.
pub struct AttachRequest<C, M> {
    pub runtime: C,
    pub core_meter: M,
}

impl AwaitCore {
    /// The metrics to set up once Core is built.
    pub closed spec fn late(self) -> HsTelemetryOptions {
        self.late_telemetry_options
    }
}

impl<C> AwaitMeter<C> {
    /// Core as it was built.
    pub closed spec fn built(self) -> C {
        self.runtime
    }
}

/// What comes of building Core for the given late options: the meter to start next, or why the
/// whole fails.
pub open spec fn after_core<C>(
    late: HsTelemetryOptions,
    built: Result<C, Seq<char>>,
) -> Result<(MeterPlan, C), Seq<char>> {
    match built {
        Ok(runtime) => match planned_meter(late) {
            Ok(plan) => Ok((plan, runtime)),
            Err(message) => Err(message),
        },
        Err(message) => Err(message),
    }
}

/// What comes of starting the meter: the meter to attach, or why the whole fails.
pub open spec fn after_meter<C, M>(runtime: C, metered: Result<M, Seq<char>>) -> Result<
    AttachRequest<C, M>,
    Seq<char>,
> {
    match metered {
        Ok(core_meter) => Ok(AttachRequest { runtime, core_meter }),
        Err(message) => Err(message),
    }
}

/// What comes of the whole, given what comes of decoding the configuration, of building Core and
/// of starting the meter.
pub open spec fn init_outcome<C, M>(
    config: Result<HsTelemetryOptions, Seq<char>>,
    built: Result<C, Seq<char>>,
    metered: Result<M, Seq<char>>,
) -> Result<AttachRequest<C, M>, Seq<char>> {
    match config {
        Ok(late) => match after_core(late, built) {
            Ok((_, runtime)) => after_meter(runtime, metered),
            Err(message) => Err(message),
        },
        Err(message) => Err(message),
    }
}

/// Starts bringing up a runtime with the given telemetry.
fn init_runtime(
    telemetry_config: TelemetryOptions,
    late_telemetry_options: HsTelemetryOptions,
) -> (request: Result<CoreRequest, String>)
    ensures
        request is Ok,
        request->Ok_0.options == runtime_options_with(telemetry_config),
        request->Ok_0.pending.late() == late_telemetry_options,
{
    match runtime_options(telemetry_config) {
        Ok(options) => Ok(
            CoreRequest { options, pending: AwaitCore { late_telemetry_options } },
        ),
        Err(message) => Err(message),
    }
}

/// Starts bringing up a runtime, from what decoding its configuration gave: Core gets the early
/// telemetry, and the configured metrics wait until it is built.
pub fn hs_temporal_init_runtime(config: Result<HsTelemetryOptions, String>) -> (request: Result<
    CoreRequest,
    String,
>)
    ensures
        match config {
            Ok(late) => {
                &&& request is Ok
                &&& request->Ok_0.options == runtime_options_with(early_telemetry())
                &&& request->Ok_0.pending.late() == late
            },
            Err(message) => request is Err && request->Err_0@ == message@,
        },
{
    match config {
        Ok(telemetry_opts) => init_runtime(early_options(), telemetry_opts),
        Err(message) => Err(message),
    }
}

impl AwaitCore {
    /// Goes on with what building Core gave.
    pub fn core_built<C>(self, built: Result<C, String>) -> (request: Result<
        MeterRequest<C>,
        String,
    >)
        ensures
            match after_core(self.late(), outcome(built)) {
                Ok((plan, runtime)) => {
                    &&& request is Ok
                    &&& request->Ok_0.plan == plan
                    &&& request->Ok_0.pending.built() == runtime
                },
                Err(message) => request is Err && request->Err_0@ == message,
            },
            built is Err ==> request is Err && request->Err_0@ == built->Err_0@,
            built is Ok ==> (request is Ok <==> planned_meter(self.late()) is Ok),
            request is Ok ==> {
                &&& request->Ok_0.plan == planned_meter(self.late())->Ok_0
                &&& request->Ok_0.pending.built() == built->Ok_0
                &&& request->Ok_0.plan is NoOp <==> self.late() is NoTelemetry
                &&& request->Ok_0.plan is Otel <==> self.late() is OtelTelemetryOptions
                &&& request->Ok_0.plan is Prometheus <==> self.late() is PrometheusTelemetryOptions
            },
    {
        match built {
            Ok(runtime) => match meter_plan(self.late_telemetry_options) {
                Ok(plan) => Ok(MeterRequest { plan, pending: AwaitMeter { runtime } }),
                Err(message) => Err(message),
            },
            Err(message) => Err(message),
        }
    }
}

impl<C> AwaitMeter<C> {
    /// Core as it was built, for its thread pool.
    pub fn core_runtime(&self) -> (runtime: &C)
        ensures
            *runtime == self.built(),
    {
        &self.runtime
    }

    /// Goes on with what starting the meter gave.
    pub fn meter_started<M>(self, metered: Result<M, String>) -> (request: Result<
        AttachRequest<C, M>,
        String,
    >)
        ensures
            outcome(request) == after_meter(self.built(), outcome(metered)),
            match metered {
                Ok(core_meter) => {
                    &&& request is Ok
                    &&& request->Ok_0.runtime == self.built()
                    &&& request->Ok_0.core_meter == core_meter
                },
                Err(message) => request is Err && request->Err_0@ == message@,
            },
    {
        match metered {
            Ok(core_meter) => Ok(AttachRequest { runtime: self.runtime, core_meter }),
            Err(message) => Err(message),
        }
    }
}

/// Reports how bringing up a runtime ended. A runtime that is up is added, with its dropper, and
/// its first handle goes into the result slot; otherwise the message goes into the error slot. The
/// other slot is left as it is.
pub fn init_ended<C, D, W>(
    runtimes: &mut CoreRuntimes<C, D>,
    ended: Result<(C, D), String>,
    try_put_mvar: W,
    result_slot: Slot<RuntimeRef<W>>,
    error_slot: Slot<CArray<u8>>,
) -> (action: HsAction<W, RuntimeRef<W>, CArray<u8>>)
    requires
        old(runtimes).wf(),
        ended is Ok ==> old(runtimes).next_key() < u64::MAX,
    ensures
        final(runtimes).wf(),
        match ended {
            Ok((runtime, dropper)) => {
                &&& final(runtimes)@ == started(
                    old(runtimes)@,
                    old(runtimes).next_key(),
                    runtime,
                    dropper,
                )
                &&& final(runtimes).next_key() == old(runtimes).next_key() + 1
                &&& action matches HsAction::SetResult { result_slot: slot, result: Some(handle) }
                &&& slot == result_slot
                &&& handle.runtime.key() == old(runtimes).next_key()
                &&& handle.runtime.waker() == try_put_mvar
            },
            Err(message) => {
                &&& final(runtimes)@ == old(runtimes)@
                &&& final(runtimes).next_key() == old(runtimes).next_key()
                &&& action matches HsAction::SetError { error_slot: slot, error: Some(payload) }
                &&& slot == error_slot
                &&& array_bytes(payload) == encode_utf8(message@)
            },
        },
{
    match ended {
        Ok((runtime, dropper)) => {
            let handle = runtimes.register(runtime, dropper, try_put_mvar);
            HsAction::SetResult { result_slot, result: Some(handle) }
        },
        Err(message) => HsAction::SetError {
            error_slot,
            error: Some(hs_error_message(message.as_str())),
        },
    }
}

/// A runtime comes up exactly if its configuration decodes, Core is built, the address of its
/// collector, if it has one, parses, and its meter starts.
pub proof fn law_up_iff_nothing_failed<C, M>(
    config: Result<HsTelemetryOptions, Seq<char>>,
    built: Result<C, Seq<char>>,
    metered: Result<M, Seq<char>>,
)
    ensures
        init_outcome(config, built, metered) is Ok <==> {
            &&& config is Ok
            &&& built is Ok
            &&& planned_meter(config->Ok_0) is Ok
            &&& metered is Ok
        },
        init_outcome(config, built, metered) is Ok ==> init_outcome(config, built, metered)->Ok_0
            == (AttachRequest { runtime: built->Ok_0, core_meter: metered->Ok_0 }),
{
}

/// A runtime that does not come up reports what failed first: the configuration, then Core, then
/// the collector's address, then the meter.
pub proof fn law_first_failure_is_reported<C, M>(
    config: Result<HsTelemetryOptions, Seq<char>>,
    built: Result<C, Seq<char>>,
    metered: Result<M, Seq<char>>,
)
    requires
        init_outcome(config, built, metered) is Err,
    ensures
        init_outcome(config, built, metered)->Err_0 == if config is Err {
            config->Err_0
        } else if built is Err {
            built->Err_0
        } else if planned_meter(config->Ok_0) is Err {
            planned_meter(config->Ok_0)->Err_0
        } else {
            metered->Err_0
        },
{
}

/// Once Core is built, the meter requested next is the one that was configured: nothing only if no
/// telemetry was asked for, a collector with its own address, headers, period and tags, or a
/// Prometheus exporter with its own address, tags and suffixes. Core goes along as it was built.
pub proof fn law_requested_meter_is_the_configured_one<C>(late: HsTelemetryOptions, runtime: C)
    ensures
        ({
            let next = after_core(late, Ok(runtime));
            &&& next is Ok ==> next->Ok_0.1 == runtime
            &&& match late {
                HsTelemetryOptions::NoTelemetry => next is Ok && next->Ok_0.0 is NoOp,
                HsTelemetryOptions::OtelTelemetryOptions {
                    url,
                    headers,
                    metric_periodicity,
                    global_tags,
                } => match parsed_url(url@) {
                    Ok(address) => {
                        &&& next is Ok
                        &&& next->Ok_0.0 == MeterPlan::Otel(
                            collector_options(
                                address,
                                headers@,
                                if metric_periodicity is Some {
                                    metric_periodicity->0
                                } else {
                                    time_span(1, 0)
                                },
                                global_tags@,
                            ),
                        )
                    },
                    Err(error) => next is Err && next->Err_0 == url_error_text(error),
                },
                HsTelemetryOptions::PrometheusTelemetryOptions {
                    socket_addr,
                    global_tags,
                    counters_total_suffix,
                    unit_suffix,
                } => {
                    &&& next is Ok
                    &&& next->Ok_0.0 == (MeterPlan::Prometheus {
                        socket_addr,
                        unit_suffix,
                        global_tags,
                        counters_total_suffix,
                    })
                },
            }
        }),
{
}

/// Which meter is requested rests on the configuration alone: two runtimes brought up with the same
/// one are asked for the same meter, or refused with the same message.
pub proof fn law_requested_meter_rests_on_configuration<C>(
    late: HsTelemetryOptions,
    one: C,
    other: C,
)
    ensures
        match (after_core(late, Ok(one)), after_core(late, Ok(other))) {
            (Ok(a), Ok(b)) => a.0 == b.0,
            (Err(a), Err(b)) => a == b,
            _ => false,
        },
{
}

/// A Core that was not built is reported with its own message, whatever was configured, and no
/// meter is requested.
pub proof fn law_failed_core_requests_no_meter<C>(late: HsTelemetryOptions, message: Seq<char>)
    ensures
        after_core(late, Err::<C, Seq<char>>(message)) == Err::<(MeterPlan, C), Seq<char>>(message),
{
}

/// The meter attached is the one that was started, to the Core that was built; a meter that did not
/// start is reported with its own message.
pub proof fn law_started_meter_is_attached<C, M>(runtime: C, core_meter: M, message: Seq<char>)
    ensures
        after_meter(runtime, Ok::<M, Seq<char>>(core_meter)) is Ok,
        after_meter(runtime, Ok::<M, Seq<char>>(core_meter))->Ok_0.runtime == runtime,
        after_meter(runtime, Ok::<M, Seq<char>>(core_meter))->Ok_0.core_meter == core_meter,
        after_meter(runtime, Err::<M, Seq<char>>(message)) is Err,
        after_meter(runtime, Err::<M, Seq<char>>(message))->Err_0 == message,
{
}

} // verus!
