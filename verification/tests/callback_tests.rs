use std::collections::HashMap;
use temporal_bridge::callback::{Capability, HsAction, HsCallback, MVar, Slot};

#[derive(Clone, Debug, PartialEq)]
enum Held {
    Null,
    Result(u32),
    Error(&'static str),
}

fn callback() -> HsCallback<u32, &'static str> {
    HsCallback {
        cap: Capability { cap_num: 4 },
        mvar: MVar { address: 300 },
        result_slot: Slot::at(100),
        error_slot: Slot::at(200),
    }
}

/// Performs the steps on slots kept in a map, and says how each looked when the thread was woken.
fn perform(
    actions: Vec<HsAction<u8, u32, &'static str>>,
) -> (HashMap<usize, Held>, Vec<(u8, i32, usize, usize)>) {
    let mut cells = HashMap::new();
    let mut wakes = Vec::new();
    for action in actions {
        match action {
            HsAction::SetResult {
                result_slot,
                result,
            } => {
                cells.insert(result_slot.address, result.map_or(Held::Null, Held::Result));
            }
            HsAction::SetError { error_slot, error } => {
                cells.insert(error_slot.address, error.map_or(Held::Null, Held::Error));
            }
            HsAction::TryPutMVar {
                try_put_mvar,
                cap,
                mvar,
            } => wakes.push((try_put_mvar, cap.cap_num, mvar.address, cells.len())),
        }
    }
    (cells, wakes)
}

#[test]
fn slot_keeps_its_address() {
    assert_eq!(Slot::<u32>::at(77).address, 77);
}

#[test]
fn success_fills_the_result_slot_and_clears_the_error_slot() {
    let (cells, wakes) = perform(callback().put_success(9, 42));
    assert_eq!(cells[&100], Held::Result(42));
    assert_eq!(cells[&200], Held::Null);
    assert_eq!(cells.len(), 2);
    assert_eq!(wakes, vec![(9, 4, 300, 2)]);
}

#[test]
fn failure_fills_the_error_slot_and_clears_the_result_slot() {
    let (cells, wakes) = perform(callback().put_failure(9, "no"));
    assert_eq!(cells[&100], Held::Null);
    assert_eq!(cells[&200], Held::Error("no"));
    assert_eq!(cells.len(), 2);
    assert_eq!(wakes, vec![(9, 4, 300, 2)]);
}

#[test]
fn ok_is_reported_as_success() {
    let actions = callback().put_result(1, Ok(7));
    assert_eq!(actions.len(), 3);
    assert!(matches!(
        actions[0],
        HsAction::SetResult {
            result: Some(7),
            ..
        }
    ));
    assert!(matches!(actions[1], HsAction::SetError { error: None, .. }));
    assert!(matches!(actions[2], HsAction::TryPutMVar { .. }));
}

#[test]
fn err_is_reported_as_failure() {
    let actions = callback().put_result(1, Err("late"));
    assert_eq!(actions.len(), 3);
    assert!(matches!(
        actions[0],
        HsAction::SetError {
            error: Some("late"),
            ..
        }
    ));
    assert!(matches!(
        actions[1],
        HsAction::SetResult { result: None, .. }
    ));
    assert!(matches!(actions[2], HsAction::TryPutMVar { .. }));
}

#[test]
fn thread_is_woken_once_after_both_slots_are_written() {
    for result in [Ok(3), Err("x")] {
        let (_, wakes) = perform(callback().put_result(2, result));
        assert_eq!(wakes.len(), 1);
        assert_eq!(wakes[0].3, 2);
    }
}
