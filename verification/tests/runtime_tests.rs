use ffi_convert::{AsRust, CArray, CReprOf};
use std::sync::Arc;
use temporal_bridge::callback::{Capability, HsAction, HsCallback, MVar, Slot};
use temporal_bridge::runtime::{
    hs_temporal_clone_runtime, hs_temporal_free_runtime, hs_temporal_test_runtime_live_count,
    teardown_sent, CoreRuntimeDeferredDrop, CoreRuntimes, SendOutcome, SupervisorAction,
    TaskOutcome,
};
use temporalio_sdk_core::{CoreRuntime, RuntimeOptions, TokioRuntimeBuilder};

const WAKE: u8 = 11;

fn callback() -> HsCallback<u32, String> {
    HsCallback {
        cap: Capability { cap_num: -1 },
        mvar: MVar { address: 30 },
        result_slot: Slot::at(10),
        error_slot: Slot::at(20),
    }
}

#[test]
fn deferred_drop_counts_its_runtime() {
    let mut live: u64 = 4;
    let deferred = CoreRuntimeDeferredDrop::new("core", "dropper", &mut live);
    assert_eq!(live, 5);
    assert_eq!(*deferred.deref(), "core");
    let teardown = deferred.drop(&mut live);
    assert_eq!(live, 4);
    assert_eq!((teardown.runtime, teardown.dropper), ("core", "dropper"));
}

#[test]
fn no_runtime_is_live_at_first() {
    let runtimes = CoreRuntimes::<u32, u32>::new();
    assert_eq!(hs_temporal_test_runtime_live_count(&runtimes), 0);
    assert!(runtimes.has_room());
}

#[test]
fn each_started_runtime_counts_once() {
    let mut runtimes = CoreRuntimes::new();
    let first = runtimes.register("one", 1, WAKE);
    let second = runtimes.register("two", 2, WAKE);
    assert_eq!(hs_temporal_test_runtime_live_count(&runtimes), 2);
    assert_eq!(*runtimes.core_runtime(&first.runtime), "one");
    assert_eq!(*runtimes.core_runtime(&second.runtime), "two");
    assert_eq!(runtimes.holders(&first.runtime), Some(1));
}

#[test]
fn cloning_a_handle_starts_no_runtime() {
    let mut runtimes = CoreRuntimes::new();
    let handle = runtimes.register("core", 0, WAKE);
    let clone = hs_temporal_clone_runtime(&mut runtimes, &handle);
    assert_eq!(hs_temporal_test_runtime_live_count(&runtimes), 1);
    assert_eq!(runtimes.holders(&handle.runtime), Some(2));
    assert_eq!(*runtimes.core_runtime(&clone.runtime), "core");
}

#[test]
fn clone_may_outlive_its_source() {
    let mut runtimes = CoreRuntimes::new();
    let handle = runtimes.register("core", 5, WAKE);
    let clone = hs_temporal_clone_runtime(&mut runtimes, &handle);
    assert!(hs_temporal_free_runtime(&mut runtimes, handle).is_none());
    assert_eq!(hs_temporal_test_runtime_live_count(&runtimes), 1);
    let teardown = hs_temporal_free_runtime(&mut runtimes, clone).unwrap();
    assert_eq!((teardown.runtime, teardown.dropper), ("core", 5));
    assert_eq!(hs_temporal_test_runtime_live_count(&runtimes), 0);
}

#[test]
fn source_may_outlive_its_clone() {
    let mut runtimes = CoreRuntimes::new();
    let handle = runtimes.register("core", 5, WAKE);
    let clone = hs_temporal_clone_runtime(&mut runtimes, &handle);
    assert!(hs_temporal_free_runtime(&mut runtimes, clone).is_none());
    assert_eq!(runtimes.holders(&handle.runtime), Some(1));
    assert!(hs_temporal_free_runtime(&mut runtimes, handle).is_some());
    assert_eq!(hs_temporal_test_runtime_live_count(&runtimes), 0);
}

#[test]
fn freeing_one_runtime_leaves_the_others() {
    let mut runtimes = CoreRuntimes::new();
    let first = runtimes.register("one", 1, WAKE);
    let second = runtimes.register("two", 2, WAKE);
    assert_eq!(
        hs_temporal_free_runtime(&mut runtimes, first)
            .unwrap()
            .dropper,
        1
    );
    assert_eq!(*runtimes.core_runtime(&second.runtime), "two");
    let third = runtimes.register("three", 3, WAKE);
    assert_eq!(hs_temporal_test_runtime_live_count(&runtimes), 2);
    assert_eq!(*runtimes.core_runtime(&third.runtime), "three");
}

#[test]
fn last_of_many_holders_tears_down() {
    let mut runtimes = CoreRuntimes::new();
    let handle = runtimes.register("core", 0, WAKE);
    let mut clones = Vec::new();
    for _ in 0..4 {
        clones.push(hs_temporal_clone_runtime(&mut runtimes, &handle));
    }
    for clone in clones {
        assert!(hs_temporal_free_runtime(&mut runtimes, clone).is_none());
        assert_eq!(hs_temporal_test_runtime_live_count(&runtimes), 1);
    }
    assert!(hs_temporal_free_runtime(&mut runtimes, handle).is_some());
}

#[test]
fn pending_call_keeps_the_runtime_when_all_handles_are_gone() {
    let mut runtimes = CoreRuntimes::new();
    let handle = runtimes.register("core", 7, WAKE);
    let (task, supervisor) = handle
        .runtime
        .future_result_into_hs(&mut runtimes, callback());
    assert_eq!(runtimes.holders(&handle.runtime), Some(2));
    assert!(hs_temporal_free_runtime(&mut runtimes, handle).is_none());
    assert_eq!(runtimes.holders(&supervisor.runtime), Some(1));
    assert_eq!(task.finish(Ok(1)).len(), 3);
    match supervisor.task_ended(&mut runtimes, TaskOutcome::Completed) {
        SupervisorAction::Released(Some(teardown)) => {
            assert_eq!((teardown.runtime, teardown.dropper), ("core", 7));
        }
        _ => panic!("the last holder must hand over the runtime"),
    }
    assert_eq!(hs_temporal_test_runtime_live_count(&runtimes), 0);
}

#[test]
fn finished_call_releases_only_its_own_hold() {
    let mut runtimes = CoreRuntimes::new();
    let handle = runtimes.register("core", 7, WAKE);
    let (_, supervisor) = handle
        .runtime
        .future_result_into_hs(&mut runtimes, callback());
    assert!(matches!(
        supervisor.task_ended(&mut runtimes, TaskOutcome::Completed),
        SupervisorAction::Released(None)
    ));
    assert_eq!(runtimes.holders(&handle.runtime), Some(1));
}

#[test]
fn call_reports_through_the_waker_of_its_handle() {
    let mut runtimes = CoreRuntimes::new();
    let handle = runtimes.register("core", 7, WAKE);
    let clone = hs_temporal_clone_runtime(&mut runtimes, &handle);
    let (task, _) = clone
        .runtime
        .future_result_into_hs(&mut runtimes, callback());
    let actions = task.finish(Err("down".to_owned()));
    match &actions[2] {
        HsAction::TryPutMVar {
            try_put_mvar,
            cap,
            mvar,
        } => {
            assert_eq!(*try_put_mvar, WAKE);
            assert_eq!(cap.cap_num, -1);
            assert_eq!(mvar.address, 30);
        }
        _ => panic!("the last step wakes the caller"),
    }
}

#[test]
fn panicked_task_aborts() {
    let mut runtimes = CoreRuntimes::new();
    let handle = runtimes.register("core", 7, WAKE);
    let (_, supervisor) = handle
        .runtime
        .future_result_into_hs(&mut runtimes, callback());
    match supervisor.task_ended(&mut runtimes, TaskOutcome::Panicked) {
        SupervisorAction::Abort { message } => assert_eq!(
            message,
            "hs-temporal-sdk: panic in the Tokio task servicing a Haskell call; \
             aborting rather than leaving the caller blocked forever"
        ),
        SupervisorAction::Released(_) => panic!("a panic must abort"),
    }
    assert_eq!(runtimes.holders(&handle.runtime), Some(2));
}

#[test]
fn cancelled_task_aborts() {
    let mut runtimes = CoreRuntimes::new();
    let handle = runtimes.register("core", 7, WAKE);
    let (_, supervisor) = handle
        .runtime
        .future_result_into_hs(&mut runtimes, callback());
    match supervisor.task_ended(&mut runtimes, TaskOutcome::Cancelled) {
        SupervisorAction::Abort { message } => assert_eq!(
            message,
            "hs-temporal-sdk: Tokio task servicing a Haskell call was cancelled; \
             aborting rather than leaving the caller blocked forever"
        ),
        SupervisorAction::Released(_) => panic!("a cancellation must abort"),
    }
}

#[test]
fn runtime_that_was_sent_is_handed_over() {
    assert!(matches!(
        teardown_sent::<u32>(Ok(())),
        SendOutcome::HandedOver
    ));
}

#[test]
fn runtime_without_a_dropper_is_forgotten() {
    match teardown_sent(Err(8)) {
        SendOutcome::ForgetAndAbort { runtime, message } => {
            assert_eq!(runtime, 8);
            assert_eq!(
                message,
                "hs-temporal-sdk: Core runtime dropper exited unexpectedly; aborting"
            );
        }
        SendOutcome::HandedOver => panic!("nothing was handed over"),
    }
}

#[test]
fn future_result_into_hs_returns_early_and_keeps_runtime_alive() {
    let core = CoreRuntime::new(
        RuntimeOptions::builder().build().unwrap(),
        TokioRuntimeBuilder::default(),
    )
    .unwrap();
    let core = Arc::new(core);
    let core_weak = Arc::downgrade(&core);
    let mut runtimes = CoreRuntimes::new();
    let runtime = runtimes.register(core, (), WAKE);

    let callback: HsCallback<CArray<u8>, CArray<u8>> = HsCallback {
        cap: Capability { cap_num: -1 },
        mvar: MVar { address: 3 },
        result_slot: Slot::at(1),
        error_slot: Slot::at(2),
    };
    // The call returns before there is a result.
    let (task, supervisor) = runtime
        .runtime
        .future_result_into_hs(&mut runtimes, callback);
    // An interrupted caller gives up its handle while the call is pending.
    assert!(hs_temporal_free_runtime(&mut runtimes, runtime).is_none());
    assert_eq!(core_weak.strong_count(), 1);

    let mut result_slot: Option<CArray<u8>> = None;
    let mut error_slot: Option<CArray<u8>> = None;
    let mut completed = 0;
    for action in task.finish(Ok(CArray::c_repr_of(vec![1_u8]).unwrap())) {
        match action {
            HsAction::SetResult { result, .. } => result_slot = result,
            HsAction::SetError { error, .. } => error_slot = error,
            HsAction::TryPutMVar { .. } => completed += 1,
        }
    }
    assert_eq!(completed, 1);
    let result: Vec<u8> = result_slot.unwrap().as_rust().unwrap();
    assert_eq!(result, vec![1_u8]);
    assert!(error_slot.is_none());

    match supervisor.task_ended(&mut runtimes, TaskOutcome::Completed) {
        SupervisorAction::Released(Some(teardown)) => drop(teardown.runtime),
        _ => panic!("the last holder must hand over the runtime"),
    }
    assert_eq!(core_weak.strong_count(), 0);
    assert_eq!(hs_temporal_test_runtime_live_count(&runtimes), 0);
}
