//! What holds of calls of the bridge, one by one and one after the other.
//!
//! Each law here speaks of calls that have returned: of what went in, what came out, and what became
//! of the runtimes.

use crate::array::{array_bytes, array_rows, copied_bytes, hs_error_message};
use crate::callback::{performed_all, Cell, HsAction, HsCallback, HsMemory, Slot};
use crate::init::{
    hs_temporal_init_runtime, init_ended, AttachRequest, AwaitCore, AwaitMeter, CoreRequest,
    MeterRequest,
};
use crate::logs::{
    core_log_def, core_log_defs, hs_temporal_runtime_fetch_logs, CoreLog, CoreLogDef,
};
use crate::runtime::{
    hs_temporal_clone_runtime, hs_temporal_free_runtime, hs_temporal_test_runtime_live_count,
    teardown_sent, CallTask, CoreRuntimeDeferredDrop, CoreRuntimes, Held, Runtime, RuntimeRef,
    SendOutcome, Supervisor, SupervisorAction, TaskOutcome, Teardown,
};
use crate::telemetry::{
    collector_options, early_options, forwarding_telemetry, meter_plan, otel_meter, parsed_url,
    runtime_options_with, time_span, url_error_text, HsTelemetryOptions, LogLevel, MeterPlan,
    SocketAddress,
};
use ffi_convert::CArray;
use std::collections::HashMap;
use std::time::Duration;
use temporalio_common::telemetry::TelemetryOptions;
use url::{ParseError, Url};
use vstd::prelude::*;
use vstd::utf8::decode_utf8;

verus! {

/// An error message can be read back: what is copied out of its array decodes to the message.
pub proof fn law_error_message_reads_back(message: &str, array: CArray<u8>, bytes: Vec<u8>)
    requires
        call_ensures(hs_error_message, (message,), array),
        call_ensures(copied_bytes, (&array,), bytes),
    ensures
        decode_utf8(bytes@) == message@,
{
}

/// What is copied out of an array is what the array holds, whatever the bytes are.
pub proof fn law_copy_holds_what_the_array_holds(array: &CArray<u8>, bytes: Vec<u8>)
    requires
        call_ensures(copied_bytes, (array,), bytes),
    ensures
        bytes@.len() == array_bytes(*array).len(),
        forall|i: int| 0 <= i < bytes@.len() ==> #[trigger] bytes@[i] == array_bytes(*array)[i],
{
}

/// Two messages that are packed into the same bytes are the same message.
pub proof fn law_error_messages_stay_apart(
    one: &str,
    other: &str,
    one_array: CArray<u8>,
    other_array: CArray<u8>,
)
    requires
        call_ensures(hs_error_message, (one,), one_array),
        call_ensures(hs_error_message, (other,), other_array),
        array_bytes(one_array) == array_bytes(other_array),
    ensures
        one@ == other@,
{
}

/// All serialised lines are packed, one row each, in order and byte for byte.
pub proof fn law_lines_are_packed_one_row_each(lines: Vec<Vec<u8>>, array: CArray<CArray<u8>>)
    requires
        call_ensures(hs_temporal_runtime_fetch_logs, (lines,), array),
    ensures
        array_rows(array).len() == lines@.len(),
        forall|i: int| 0 <= i < lines@.len() ==> #[trigger] array_rows(array)[i] == lines@[i]@,
{
}

/// Every buffered line is handed out, in its place, and complete but for the level, which is given
/// by name.
pub proof fn law_buffered_lines_are_handed_out(logs: Vec<CoreLog>, defs: Vec<CoreLogDef>)
    requires
        call_ensures(core_log_defs, (logs,), defs),
    ensures
        defs@.len() == logs@.len(),
        forall|i: int| #![trigger defs@[i]]
            0 <= i < logs@.len() ==> {
                &&& defs@[i].target == logs@[i].target
                &&& defs@[i].message == logs@[i].message
                &&& defs@[i].timestamp == logs@[i].timestamp
                &&& defs@[i].fields == logs@[i].fields
                &&& defs@[i].span_contexts == logs@[i].span_contexts
                &&& defs@[i].level@ == match logs@[i].level {
                    LogLevel::Error => "ERROR"@,
                    LogLevel::Warn => "WARN"@,
                    LogLevel::Info => "INFO"@,
                    LogLevel::Debug => "DEBUG"@,
                    LogLevel::Trace => "TRACE"@,
                }
            },
{
}

/// A line is handed out the same on its own as among others.
pub proof fn law_line_does_not_depend_on_its_neighbours(
    logs: Vec<CoreLog>,
    defs: Vec<CoreLogDef>,
    i: int,
    def: CoreLogDef,
)
    requires
        call_ensures(core_log_defs, (logs,), defs),
        0 <= i < logs@.len(),
        call_ensures(core_log_def, (logs@[i],), def),
    ensures
        def.target == defs@[i].target,
        def.message == defs@[i].message,
        def.timestamp == defs@[i].timestamp,
        def.level@ == defs@[i].level@,
        def.fields == defs@[i].fields,
        def.span_contexts == defs@[i].span_contexts,
{
}

/// A collector at an address that parsed is planned with exactly the headers and tags asked for,
/// and with the period asked for, or one second if none was.
pub proof fn law_planned_collector_has_what_was_asked_for(
    url: Url,
    headers: HashMap<String, String>,
    metric_periodicity: Option<Duration>,
    global_tags: HashMap<String, String>,
    plan: Result<MeterPlan, String>,
)
    requires
        call_ensures(otel_meter, (Ok(url), headers, metric_periodicity, global_tags), plan),
    ensures
        plan is Ok,
        metric_periodicity is Some ==> plan->Ok_0 == MeterPlan::Otel(
            collector_options(url, headers@, metric_periodicity->0, global_tags@),
        ),
        metric_periodicity is None ==> plan->Ok_0 == MeterPlan::Otel(
            collector_options(url, headers@, time_span(1, 0), global_tags@),
        ),
{
}

/// A collector at an address that did not parse is refused with the parser's message.
pub proof fn law_unparsed_collector_is_refused(
    error: ParseError,
    headers: HashMap<String, String>,
    metric_periodicity: Option<Duration>,
    global_tags: HashMap<String, String>,
    plan: Result<MeterPlan, String>,
)
    requires
        call_ensures(otel_meter, (Err(error), headers, metric_periodicity, global_tags), plan),
    ensures
        plan is Err,
        plan->Err_0@ == url_error_text(error),
{
}

/// The configured meter is the one planned, in kind and in every option.
pub proof fn law_configured_meter_is_planned(
    late: HsTelemetryOptions,
    plan: Result<MeterPlan, String>,
)
    requires
        call_ensures(meter_plan, (late,), plan),
    ensures
        match late {
            HsTelemetryOptions::NoTelemetry => plan is Ok && plan->Ok_0 is NoOp,
            HsTelemetryOptions::OtelTelemetryOptions {
                url,
                headers,
                metric_periodicity,
                global_tags,
            } => {
                &&& plan is Ok <==> parsed_url(url@) is Ok
                &&& plan is Err ==> plan->Err_0@ == url_error_text(parsed_url(url@)->Err_0)
                &&& plan is Ok ==> plan->Ok_0 == MeterPlan::Otel(
                    collector_options(
                        parsed_url(url@)->Ok_0,
                        headers@,
                        if metric_periodicity is Some {
                            metric_periodicity->0
                        } else {
                            time_span(1, 0)
                        },
                        global_tags@,
                    ),
                )
            },
            HsTelemetryOptions::PrometheusTelemetryOptions {
                socket_addr,
                global_tags,
                counters_total_suffix,
                unit_suffix,
            } => {
                &&& plan is Ok
                &&& plan->Ok_0 == (MeterPlan::Prometheus {
                    socket_addr,
                    unit_suffix,
                    global_tags,
                    counters_total_suffix,
                })
            },
        },
{
}

/// Two Prometheus configurations that are planned alike ask for the same: no option is ignored.
pub proof fn law_no_prometheus_option_is_ignored(
    one: (SocketAddress, HashMap<String, String>, bool, bool),
    other: (SocketAddress, HashMap<String, String>, bool, bool),
    plan: Result<MeterPlan, String>,
)
    requires
        call_ensures(
            meter_plan,
            (HsTelemetryOptions::PrometheusTelemetryOptions {
                socket_addr: one.0,
                global_tags: one.1,
                counters_total_suffix: one.2,
                unit_suffix: one.3,
            },),
            plan,
        ),
        call_ensures(
            meter_plan,
            (HsTelemetryOptions::PrometheusTelemetryOptions {
                socket_addr: other.0,
                global_tags: other.1,
                counters_total_suffix: other.2,
                unit_suffix: other.3,
            },),
            plan,
        ),
    ensures
        one == other,
{
}

/// The telemetry that every runtime starts with forwards the logs of Core from `INFO` on and all
/// others from `ERROR` on, and names the service on metrics.
pub proof fn law_early_options_forward_logs(options: TelemetryOptions)
    requires
        call_ensures(early_options, (), options),
    ensures
        options == forwarding_telemetry(
            "ERROR,temporalio_common=INFO,temporalio_sdk_core=INFO,temporalio_client=INFO,temporalio_sdk=INFO"@,
            true,
        ),
{
    crate::telemetry::law_early_telemetry_forwards_logs();
}

/// A configuration that did not decode is reported with its own message. Any other goes on to
/// building Core, always with the same options.
pub proof fn law_core_is_built_alike_for_all_configurations(
    config: Result<HsTelemetryOptions, String>,
    request: Result<CoreRequest, String>,
)
    requires
        call_ensures(hs_temporal_init_runtime, (config,), request),
    ensures
        request is Ok <==> config is Ok,
        config is Err ==> request->Err_0@ == config->Err_0@,
        config is Ok ==> request->Ok_0.options == runtime_options_with(
            forwarding_telemetry(
                "ERROR,temporalio_common=INFO,temporalio_sdk_core=INFO,temporalio_client=INFO,temporalio_sdk=INFO"@,
                true,
            ),
        ),
{
    crate::telemetry::law_early_telemetry_forwards_logs();
}

/// From the configuration to the runtime that is up: if Core is built, the meter requested is the
/// configured one, in kind and in every option, and what comes up is that Core with the meter that
/// was started for it.
pub proof fn law_runtime_comes_up_as_configured<C, M>(
    late: HsTelemetryOptions,
    request: Result<CoreRequest, String>,
    built: C,
    meter_request: Result<MeterRequest<C>, String>,
    metered: Result<M, String>,
    attach: Result<AttachRequest<C, M>, String>,
)
    requires
        call_ensures(hs_temporal_init_runtime, (Ok(late),), request),
        request is Ok ==> call_ensures(
            AwaitCore::core_built::<C>,
            (request->Ok_0.pending, Ok(built)),
            meter_request,
        ),
        meter_request is Ok ==> call_ensures(
            AwaitMeter::<C>::meter_started::<M>,
            (meter_request->Ok_0.pending, metered),
            attach,
        ),
    ensures
        request is Ok,
        match late {
            HsTelemetryOptions::NoTelemetry => {
                &&& meter_request is Ok
                &&& meter_request->Ok_0.plan is NoOp
            },
            HsTelemetryOptions::OtelTelemetryOptions {
                url,
                headers,
                metric_periodicity,
                global_tags,
            } => {
                &&& meter_request is Ok <==> parsed_url(url@) is Ok
                &&& meter_request is Err ==> meter_request->Err_0@ == url_error_text(
                    parsed_url(url@)->Err_0,
                )
                &&& meter_request is Ok ==> meter_request->Ok_0.plan == MeterPlan::Otel(
                    collector_options(
                        parsed_url(url@)->Ok_0,
                        headers@,
                        if metric_periodicity is Some {
                            metric_periodicity->0
                        } else {
                            time_span(1, 0)
                        },
                        global_tags@,
                    ),
                )
            },
            HsTelemetryOptions::PrometheusTelemetryOptions {
                socket_addr,
                global_tags,
                counters_total_suffix,
                unit_suffix,
            } => {
                &&& meter_request is Ok
                &&& meter_request->Ok_0.plan == (MeterPlan::Prometheus {
                    socket_addr,
                    unit_suffix,
                    global_tags,
                    counters_total_suffix,
                })
            },
        },
        meter_request is Ok ==> {
            &&& meter_request->Ok_0.pending.built() == built
            &&& attach is Ok <==> metered is Ok
            &&& metered is Ok ==> attach->Ok_0.runtime == built
            &&& metered is Ok ==> attach->Ok_0.core_meter == metered->Ok_0
            &&& metered is Err ==> attach->Err_0@ == metered->Err_0@
        },
{
}

/// The meter is started on the thread pool of the very Core that was built.
pub proof fn law_meter_is_started_on_the_built_core<C>(
    pending: AwaitCore,
    built: C,
    meter_request: Result<MeterRequest<C>, String>,
    running: &C,
)
    requires
        call_ensures(AwaitCore::core_built::<C>, (pending, Ok(built)), meter_request),
        meter_request is Ok,
        call_ensures(AwaitMeter::<C>::core_runtime, (&meter_request->Ok_0.pending,), running),
    ensures
        *running == built,
{
}

/// A Core that was not built ends the whole with its own message, whatever was configured.
pub proof fn law_failed_core_is_reported<C>(
    pending: AwaitCore,
    message: String,
    meter_request: Result<MeterRequest<C>, String>,
)
    requires
        call_ensures(AwaitCore::core_built::<C>, (pending, Err(message)), meter_request),
    ensures
        meter_request is Err,
        meter_request->Err_0@ == message@,
{
}

/// Whatever a call comes to, its caller finds it in the slot meant for it and null in the other,
/// nothing else has been written, and the caller has been woken once, through the function of the
/// handle on which the call was made.
pub proof fn law_finished_call_reaches_its_caller<C, D, W: Copy, T, E>(
    runtime: &Runtime<W>,
    runtimes: &mut CoreRuntimes<C, D>,
    callback: HsCallback<T, E>,
    tasks: (CallTask<W, T, E>, Supervisor<W>),
    result: Result<T, E>,
    actions: Vec<HsAction<W, T, E>>,
    memory: HsMemory<W, T, E>,
)
    requires
        call_ensures(
            Runtime::<W>::future_result_into_hs::<C, D, T, E>,
            (runtime, runtimes, callback),
            tasks,
        ),
        call_ensures(CallTask::<W, T, E>::finish, (tasks.0, result), actions),
        callback.result_slot.address != callback.error_slot.address,
    ensures
        ({
            let seen = performed_all(memory, actions@);
            &&& seen.cells.contains_key(callback.result_slot.address)
            &&& seen.cells.contains_key(callback.error_slot.address)
            &&& seen.cells[callback.result_slot.address] == if result is Ok {
                Cell::<T, E>::Result(result->Ok_0)
            } else {
                Cell::<T, E>::Null
            }
            &&& seen.cells[callback.error_slot.address] == if result is Err {
                Cell::<T, E>::Error(result->Err_0)
            } else {
                Cell::<T, E>::Null
            }
            &&& forall|address: usize|
                address != callback.result_slot.address && address != callback.error_slot.address
                    ==> {
                    &&& #[trigger] seen.cells.contains_key(address) <==> memory.cells.contains_key(
                        address,
                    )
                    &&& seen.cells[address] == memory.cells[address]
                }
            &&& seen.puts == memory.puts.push((runtime.waker(), callback.cap, callback.mvar))
        }),
{
    crate::callback::law_outcome_fills_one_slot_and_wakes_once(
        memory,
        callback,
        runtime.waker(),
        result,
    );
}

/// A slot is the one at the address given, and no other.
pub proof fn law_slot_is_known_by_its_address<T>(address: usize, slot: Slot<T>)
    requires
        call_ensures(Slot::<T>::at, (address,), slot),
    ensures
        slot.address == address,
{
}

/// Reporting an outcome is reporting success or failure, whichever it is.
pub proof fn law_result_is_put_as_success_or_failure<W, A, E>(
    callback: HsCallback<A, E>,
    try_put_mvar: W,
    result: A,
    error: E,
    succeeded: Vec<HsAction<W, A, E>>,
    put_ok: Vec<HsAction<W, A, E>>,
    failed: Vec<HsAction<W, A, E>>,
    put_err: Vec<HsAction<W, A, E>>,
)
    requires
        call_ensures(
            HsCallback::<A, E>::put_success::<W>,
            (callback, try_put_mvar, result),
            succeeded,
        ),
        call_ensures(
            HsCallback::<A, E>::put_result::<W>,
            (callback, try_put_mvar, Ok(result)),
            put_ok,
        ),
        call_ensures(
            HsCallback::<A, E>::put_failure::<W>,
            (callback, try_put_mvar, error),
            failed,
        ),
        call_ensures(
            HsCallback::<A, E>::put_result::<W>,
            (callback, try_put_mvar, Err(error)),
            put_err,
        ),
    ensures
        succeeded@ == put_ok@,
        failed@ == put_err@,
        succeeded@.len() == 3,
        failed@.len() == 3,
        succeeded@[0] == (HsAction::<W, A, E>::SetResult {
            result_slot: callback.result_slot,
            result: Some(result),
        }),
        failed@[0] == (HsAction::<W, A, E>::SetError {
            error_slot: callback.error_slot,
            error: Some(error),
        }),
        succeeded@[1] == (HsAction::<W, A, E>::SetError {
            error_slot: callback.error_slot,
            error: None,
        }),
        failed@[1] == (HsAction::<W, A, E>::SetResult {
            result_slot: callback.result_slot,
            result: None,
        }),
        succeeded@[2] == (HsAction::<W, A, E>::TryPutMVar {
            try_put_mvar,
            cap: callback.cap,
            mvar: callback.mvar,
        }),
        failed@[2] == succeeded@[2],
{
}

/// Taking charge of a runtime and giving it up again leaves the count as it was, gives back that
/// runtime with that dropper, and in between gives access to it.
pub proof fn law_deferred_drop_gives_back_its_runtime<C, D>(
    runtime: C,
    dropper: D,
    live: &mut u64,
    deferred: CoreRuntimeDeferredDrop<C, D>,
    running: &C,
    later: &mut u64,
    teardown: Teardown<C, D>,
)
    requires
        call_ensures(CoreRuntimeDeferredDrop::<C, D>::new, (runtime, dropper, live), deferred),
        call_ensures(CoreRuntimeDeferredDrop::<C, D>::deref, (&deferred,), running),
        *old(later) == *final(live),
        call_ensures(CoreRuntimeDeferredDrop::<C, D>::drop, (deferred, later), teardown),
    ensures
        *final(live) == *old(live) + 1,
        *running == runtime,
        *final(later) == *old(live),
        teardown.runtime == runtime,
        teardown.dropper == dropper,
{
}

/// A runtime that is registered is a new one, held once, by the handle given out; the others stay
/// as they are, and there is one runtime more.
pub proof fn law_registered_runtime_is_new<C, D, W>(
    runtimes: &mut CoreRuntimes<C, D>,
    runtime: C,
    dropper: D,
    try_put_mvar: W,
    handle: RuntimeRef<W>,
)
    requires
        old(runtimes).wf(),
        call_ensures(
            CoreRuntimes::<C, D>::register::<W>,
            (runtimes, runtime, dropper, try_put_mvar),
            handle,
        ),
    ensures
        !old(runtimes)@.contains_key(handle.runtime.key()),
        final(runtimes)@.contains_key(handle.runtime.key()),
        final(runtimes)@[handle.runtime.key()].runtime == runtime,
        final(runtimes)@[handle.runtime.key()].dropper == dropper,
        final(runtimes)@[handle.runtime.key()].holders == 1,
        final(runtimes)@.remove(handle.runtime.key()) == old(runtimes)@,
        final(runtimes)@.len() == old(runtimes)@.len() + 1,
        handle.runtime.waker() == try_put_mvar,
{
    assert(final(runtimes)@.remove(handle.runtime.key()) =~= old(runtimes)@);
}

/// There is no runtime to begin with, and room for one.
pub proof fn law_there_is_no_runtime_to_begin_with<C, D>(
    runtimes: CoreRuntimes<C, D>,
    count: u64,
    room: bool,
)
    requires
        call_ensures(CoreRuntimes::<C, D>::new, (), runtimes),
        call_ensures(hs_temporal_test_runtime_live_count::<C, D>, (&runtimes,), count),
        call_ensures(CoreRuntimes::<C, D>::has_room, (&runtimes,), room),
    ensures
        runtimes.wf(),
        forall|key: u64| !#[trigger] runtimes@.contains_key(key),
        count == 0,
        room,
{
}

/// Where there is room, a runtime can be added; there is none only once all keys have been given
/// out.
pub proof fn law_room_is_room_for_a_runtime<C, D, W>(
    runtimes: &mut CoreRuntimes<C, D>,
    room: bool,
    runtime: C,
    dropper: D,
    try_put_mvar: W,
)
    requires
        old(runtimes).wf(),
        call_ensures(CoreRuntimes::<C, D>::has_room, (&*old(runtimes),), room),
    ensures
        room ==> call_requires(
            CoreRuntimes::<C, D>::register::<W>,
            (runtimes, runtime, dropper, try_put_mvar),
        ),
        !room ==> old(runtimes).next_key() == u64::MAX,
{
}

/// A key is given out once: a runtime that is added later has another, even if the earlier one has
/// gone meanwhile.
pub proof fn law_keys_are_not_given_out_again<C, D, W>(
    runtimes: &mut CoreRuntimes<C, D>,
    runtime: C,
    dropper: D,
    try_put_mvar: W,
    handle: RuntimeRef<W>,
    later: &mut CoreRuntimes<C, D>,
    teardown: Option<Teardown<C, D>>,
    last: &mut CoreRuntimes<C, D>,
    next_runtime: C,
    next_dropper: D,
    next_handle: RuntimeRef<W>,
)
    requires
        old(runtimes).wf(),
        call_ensures(
            CoreRuntimes::<C, D>::register::<W>,
            (runtimes, runtime, dropper, try_put_mvar),
            handle,
        ),
        *old(later) == *final(runtimes),
        call_ensures(hs_temporal_free_runtime::<C, D, W>, (later, handle), teardown),
        *old(last) == *final(later),
        call_ensures(
            CoreRuntimes::<C, D>::register::<W>,
            (last, next_runtime, next_dropper, try_put_mvar),
            next_handle,
        ),
    ensures
        teardown == Some(Teardown { runtime, dropper }),
        final(later)@ == old(runtimes)@,
        next_handle.runtime.key() != handle.runtime.key(),
        !old(runtimes)@.contains_key(next_handle.runtime.key()),
{
    assert(final(later)@ =~= old(runtimes)@);
}

/// Adding a runtime raises the live count by one.
pub proof fn law_registering_raises_live_count<C, D, W>(
    runtimes: &mut CoreRuntimes<C, D>,
    runtime: C,
    dropper: D,
    try_put_mvar: W,
    handle: RuntimeRef<W>,
    before: u64,
    after: u64,
)
    requires
        old(runtimes).wf(),
        call_ensures(hs_temporal_test_runtime_live_count::<C, D>, (&*old(runtimes),), before),
        call_ensures(
            CoreRuntimes::<C, D>::register::<W>,
            (runtimes, runtime, dropper, try_put_mvar),
            handle,
        ),
        call_ensures(hs_temporal_test_runtime_live_count::<C, D>, (&*final(runtimes),), after),
    ensures
        after == before + 1,
{
}

/// Handles to one runtime count once: cloning one leaves the live count as it was.
pub proof fn law_cloning_keeps_live_count<C, D, W: Copy>(
    runtimes: &mut CoreRuntimes<C, D>,
    handle: &RuntimeRef<W>,
    clone: RuntimeRef<W>,
    before: u64,
    after: u64,
)
    requires
        old(runtimes).wf(),
        old(runtimes)@.contains_key(handle.runtime.key()),
        call_ensures(hs_temporal_test_runtime_live_count::<C, D>, (&*old(runtimes),), before),
        call_ensures(hs_temporal_clone_runtime::<C, D, W>, (runtimes, handle), clone),
        call_ensures(hs_temporal_test_runtime_live_count::<C, D>, (&*final(runtimes),), after),
    ensures
        before >= 1,
        after == before,
{
    assert(final(runtimes)@.dom() =~= old(runtimes)@.dom());
    if before == 0 {
        assert(old(runtimes)@.dom() =~= Set::empty());
    }
}

/// Giving up a handle lowers the live count by one exactly if something is torn down.
pub proof fn law_live_count_falls_with_teardown<C, D, W>(
    runtimes: &mut CoreRuntimes<C, D>,
    handle: RuntimeRef<W>,
    teardown: Option<Teardown<C, D>>,
    before: u64,
    after: u64,
)
    requires
        old(runtimes).wf(),
        old(runtimes)@.contains_key(handle.runtime.key()),
        call_ensures(hs_temporal_test_runtime_live_count::<C, D>, (&*old(runtimes),), before),
        call_ensures(hs_temporal_free_runtime::<C, D, W>, (runtimes, handle), teardown),
        call_ensures(hs_temporal_test_runtime_live_count::<C, D>, (&*final(runtimes),), after),
    ensures
        teardown is Some ==> after == before - 1,
        teardown is None ==> after == before,
{
    assert(teardown is None ==> final(runtimes)@.dom() =~= old(runtimes)@.dom());
}

/// A cloned handle is a handle to the same runtime, waking through the same function: the runtime
/// has one holder more and is otherwise unchanged, and so is every other.
pub proof fn law_clone_shares_the_runtime<C, D, W: Copy>(
    runtimes: &mut CoreRuntimes<C, D>,
    handle: &RuntimeRef<W>,
    clone: RuntimeRef<W>,
)
    requires
        old(runtimes)@.contains_key(handle.runtime.key()),
        call_ensures(hs_temporal_clone_runtime::<C, D, W>, (runtimes, handle), clone),
    ensures
        clone.runtime.key() == handle.runtime.key(),
        clone.runtime.waker() == handle.runtime.waker(),
        ({
            let key = handle.runtime.key();
            &&& final(runtimes)@.contains_key(key)
            &&& final(runtimes)@[key].runtime == old(runtimes)@[key].runtime
            &&& final(runtimes)@[key].dropper == old(runtimes)@[key].dropper
            &&& final(runtimes)@[key].holders == old(runtimes)@[key].holders + 1
            &&& final(runtimes)@.remove(key) == old(runtimes)@.remove(key)
        }),
{
    assert(final(runtimes)@.remove(handle.runtime.key()) =~= old(runtimes)@.remove(
        handle.runtime.key(),
    ));
}

/// Giving up a handle ends the runtime exactly if it was the last holder, and then gives that
/// runtime out for its own dropper thread. Otherwise the runtime has one holder less. No other
/// runtime changes.
pub proof fn law_free_ends_runtime_with_last_holder<C, D, W>(
    runtimes: &mut CoreRuntimes<C, D>,
    handle: RuntimeRef<W>,
    teardown: Option<Teardown<C, D>>,
)
    requires
        old(runtimes).wf(),
        old(runtimes)@.contains_key(handle.runtime.key()),
        call_ensures(hs_temporal_free_runtime::<C, D, W>, (runtimes, handle), teardown),
    ensures
        ({
            let key = handle.runtime.key();
            let held = old(runtimes)@[key];
            &&& teardown is Some <==> held.holders == 1
            &&& teardown is Some ==> {
                &&& teardown->0.runtime == held.runtime
                &&& teardown->0.dropper == held.dropper
                &&& !final(runtimes)@.contains_key(key)
                &&& final(runtimes)@.len() == old(runtimes)@.len() - 1
            }
            &&& teardown is None ==> {
                &&& final(runtimes)@.contains_key(key)
                &&& final(runtimes)@[key].runtime == held.runtime
                &&& final(runtimes)@[key].dropper == held.dropper
                &&& final(runtimes)@[key].holders == held.holders - 1
                &&& final(runtimes)@.len() == old(runtimes)@.len()
            }
            &&& final(runtimes)@.remove(key) == old(runtimes)@.remove(key)
        }),
{
    let key = handle.runtime.key();
    assert(final(runtimes)@.remove(key) =~= old(runtimes)@.remove(key));
    assert(teardown is None ==> final(runtimes)@.dom() =~= old(runtimes)@.dom());
}

/// After a clone either handle may go first: nothing is torn down, and everything is as before.
pub proof fn law_either_handle_may_go_first<C, D, W: Copy>(
    runtimes: &mut CoreRuntimes<C, D>,
    handle: &RuntimeRef<W>,
    clone: RuntimeRef<W>,
    later: &mut CoreRuntimes<C, D>,
    first: RuntimeRef<W>,
    teardown: Option<Teardown<C, D>>,
)
    requires
        old(runtimes).wf(),
        old(runtimes)@.contains_key(handle.runtime.key()),
        call_ensures(hs_temporal_clone_runtime::<C, D, W>, (runtimes, handle), clone),
        *old(later) == *final(runtimes),
        first == *handle || first == clone,
        call_ensures(hs_temporal_free_runtime::<C, D, W>, (later, first), teardown),
    ensures
        teardown is None,
        final(later)@ == old(runtimes)@,
{
    assert(final(later)@ =~= old(runtimes)@);
}

/// A call holds the runtime: given up right after the call was made, a handle that was the only one
/// tears nothing down, and the completion of the call then gives the runtime out for its own dropper
/// thread.
pub proof fn law_call_outlives_its_handle<C, D, W: Copy, T, E>(
    handle: RuntimeRef<W>,
    runtimes: &mut CoreRuntimes<C, D>,
    callback: HsCallback<T, E>,
    tasks: (CallTask<W, T, E>, Supervisor<W>),
    later: &mut CoreRuntimes<C, D>,
    teardown: Option<Teardown<C, D>>,
    last: &mut CoreRuntimes<C, D>,
    action: SupervisorAction<C, D>,
)
    requires
        old(runtimes).wf(),
        old(runtimes)@.contains_key(handle.runtime.key()),
        old(runtimes)@[handle.runtime.key()].holders == 1,
        call_ensures(
            Runtime::<W>::future_result_into_hs::<C, D, T, E>,
            (&handle.runtime, runtimes, callback),
            tasks,
        ),
        *old(later) == *final(runtimes),
        call_ensures(hs_temporal_free_runtime::<C, D, W>, (later, handle), teardown),
        *old(last) == *final(later),
        call_ensures(
            Supervisor::<W>::task_ended::<C, D>,
            (tasks.1, last, TaskOutcome::Completed),
            action,
        ),
    ensures
        tasks.0.callback == callback,
        tasks.0.try_put_mvar == handle.runtime.waker(),
        teardown is None,
        final(later)@ == old(runtimes)@,
        action == SupervisorAction::Released(
            Some(
                Teardown {
                    runtime: old(runtimes)@[handle.runtime.key()].runtime,
                    dropper: old(runtimes)@[handle.runtime.key()].dropper,
                },
            ),
        ),
        final(last)@ == old(runtimes)@.remove(handle.runtime.key()),
{
    assert(final(later)@ =~= old(runtimes)@);
    assert(final(last)@ =~= old(runtimes)@.remove(handle.runtime.key()));
}

/// A completed call lets go of its runtime as a handle does.
pub proof fn law_completed_call_lets_go_as_a_handle_does<C, D, W>(
    supervisor: Supervisor<W>,
    handle: RuntimeRef<W>,
    runtimes: &mut CoreRuntimes<C, D>,
    action: SupervisorAction<C, D>,
    others: &mut CoreRuntimes<C, D>,
    teardown: Option<Teardown<C, D>>,
)
    requires
        *old(others) == *old(runtimes),
        handle.runtime.key() == supervisor.runtime.key(),
        call_ensures(
            Supervisor::<W>::task_ended::<C, D>,
            (supervisor, runtimes, TaskOutcome::Completed),
            action,
        ),
        call_ensures(hs_temporal_free_runtime::<C, D, W>, (others, handle), teardown),
    ensures
        action == SupervisorAction::Released(teardown),
        final(runtimes)@ == final(others)@,
{
}

/// A call whose task did not run to its end aborts the process, saying why, and lets go of nothing.
pub proof fn law_unfinished_call_aborts<C, D, W>(
    supervisor: Supervisor<W>,
    runtimes: &mut CoreRuntimes<C, D>,
    outcome: TaskOutcome,
    action: SupervisorAction<C, D>,
)
    requires
        outcome !is Completed,
        call_ensures(
            Supervisor::<W>::task_ended::<C, D>,
            (supervisor, runtimes, outcome),
            action,
        ),
    ensures
        final(runtimes)@ == old(runtimes)@,
        action is Abort,
        outcome is Panicked ==> action->message@
            == "hs-temporal-sdk: panic in the Tokio task servicing a Haskell call; aborting rather than leaving the caller blocked forever"@,
        outcome is Cancelled ==> action->message@
            == "hs-temporal-sdk: Tokio task servicing a Haskell call was cancelled; aborting rather than leaving the caller blocked forever"@,
{
}

/// A runtime that its dropper thread has not taken is neither lost nor torn down: it comes back to
/// be leaked before the process aborts. One that was taken needs nothing more.
pub proof fn law_runtime_without_dropper_is_kept<C>(sent: Result<(), C>, next: SendOutcome<C>)
    requires
        call_ensures(teardown_sent::<C>, (sent,), next),
    ensures
        next is HandedOver <==> sent is Ok,
        sent is Err ==> {
            &&& next->runtime == sent->Err_0
            &&& next->message@
                == "hs-temporal-sdk: Core runtime dropper exited unexpectedly; aborting"@
        },
{
}

/// Through a handle one gets at the runtime behind it and its number of holders.
pub proof fn law_handle_leads_to_its_runtime<C, D, W>(
    runtimes: &CoreRuntimes<C, D>,
    handle: &Runtime<W>,
    holders: Option<u64>,
    running: &C,
)
    requires
        call_ensures(CoreRuntimes::<C, D>::holders::<W>, (runtimes, handle), holders),
        holders is Some ==> call_ensures(
            CoreRuntimes::<C, D>::core_runtime::<W>,
            (runtimes, handle),
            running,
        ),
    ensures
        holders is Some <==> runtimes@.contains_key(handle.key()),
        holders is Some ==> holders->0 == runtimes@[handle.key()].holders,
        holders is Some ==> *running == runtimes@[handle.key()].runtime,
{
}

/// A runtime that is up is registered, held once, and its handle is stored into the result slot;
/// the error slot is left alone.
pub proof fn law_runtime_that_is_up_is_handed_out<C, D, W>(
    runtimes: &mut CoreRuntimes<C, D>,
    runtime: C,
    dropper: D,
    try_put_mvar: W,
    result_slot: Slot<RuntimeRef<W>>,
    error_slot: Slot<CArray<u8>>,
    action: HsAction<W, RuntimeRef<W>, CArray<u8>>,
)
    requires
        old(runtimes).wf(),
        call_ensures(
            init_ended::<C, D, W>,
            (runtimes, Ok((runtime, dropper)), try_put_mvar, result_slot, error_slot),
            action,
        ),
    ensures
        action matches HsAction::SetResult { result_slot: slot, result: Some(handle) } && {
            &&& slot == result_slot
            &&& !old(runtimes)@.contains_key(handle.runtime.key())
            &&& final(runtimes)@ == old(runtimes)@.insert(
                handle.runtime.key(),
                Held { runtime, dropper, holders: 1 },
            )
            &&& handle.runtime.waker() == try_put_mvar
        },
{
}

/// A runtime that did not come up is not registered; its message, as it decodes again, is stored
/// into the error slot, and the result slot is left alone.
pub proof fn law_failure_to_come_up_is_reported<C, D, W>(
    runtimes: &mut CoreRuntimes<C, D>,
    message: String,
    try_put_mvar: W,
    result_slot: Slot<RuntimeRef<W>>,
    error_slot: Slot<CArray<u8>>,
    action: HsAction<W, RuntimeRef<W>, CArray<u8>>,
)
    requires
        call_ensures(
            init_ended::<C, D, W>,
            (runtimes, Err(message), try_put_mvar, result_slot, error_slot),
            action,
        ),
    ensures
        final(runtimes)@ == old(runtimes)@,
        action matches HsAction::SetError { error_slot: slot, error: Some(payload) } && {
            &&& slot == error_slot
            &&& decode_utf8(array_bytes(payload)) == message@
        },
{
    vstd::utf8::encode_utf8_decode_utf8(message@);
}

} // verus!
