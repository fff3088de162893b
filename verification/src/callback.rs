//! How the outcome of a call reaches the Haskell thread that waits for it.
//!
//! A waiting thread owns two slots and an `MVar`. A finished call stores an owned pointer into one
//! slot, null into the other, and only then fills the `MVar`. The functions here return those
//! steps as values, in the order in which they are to be performed.

use std::marker::PhantomData;
use vstd::prelude::*;

verus! {

/// A Haskell `MVar`, known by its address.
#[derive(Clone, Copy, Debug, PartialEq, Eq, Structural)]
pub struct MVar {
    pub address: usize,
}

/// The Haskell capability on which a thread waits.
#[derive(Clone, Copy, Debug, PartialEq, Eq, Structural)]
pub struct Capability {
    pub cap_num: i32,
}

/// A cell that takes an owned pointer to a `T`, or null, known by its address.
pub struct Slot<T> {
    pub address: usize,
    pub pointee: PhantomData<T>,
}

impl<T> Slot<T> {
    /// The slot at the given address.
    pub fn at(address: usize) -> (slot: Slot<T>)
        ensures
            slot.address == address,
    {
        Slot { address, pointee: PhantomData }
    }
}

/// A waiting Haskell thread.
pub struct HsCallback<A, E> {
    pub cap: Capability,
    pub mvar: MVar,
    pub result_slot: Slot<A>,
    pub error_slot: Slot<E>,
}

/// One step towards a waiting Haskell thread. No value stands for null.
pub enum HsAction<W, A, E> {
    /// Store into a result slot.
    SetResult { result_slot: Slot<A>, result: Option<A> },
    /// Store into an error slot.
    SetError { error_slot: Slot<E>, error: Option<E> },
    /// Fill an `MVar`, which wakes its reader.
    TryPutMVar { try_put_mvar: W, cap: Capability, mvar: MVar },
}

/// The steps that report `result`.
pub open spec fn success_actions<W, A, E>(
    callback: HsCallback<A, E>,
    try_put_mvar: W,
    result: A,
) -> Seq<HsAction<W, A, E>> {
    seq![
        HsAction::SetResult { result_slot: callback.result_slot, result: Some(result) },
        HsAction::SetError { error_slot: callback.error_slot, error: None },
        HsAction::TryPutMVar { try_put_mvar, cap: callback.cap, mvar: callback.mvar },
    ]
}

/// The steps that report `error`.
pub open spec fn failure_actions<W, A, E>(
    callback: HsCallback<A, E>,
    try_put_mvar: W,
    error: E,
) -> Seq<HsAction<W, A, E>> {
    seq![
        HsAction::SetError { error_slot: callback.error_slot, error: Some(error) },
        HsAction::SetResult { result_slot: callback.result_slot, result: None },
        HsAction::TryPutMVar { try_put_mvar, cap: callback.cap, mvar: callback.mvar },
    ]
}

/// The steps that report the outcome of a call.
pub open spec fn result_actions<W, A, E>(
    callback: HsCallback<A, E>,
    try_put_mvar: W,
    result: Result<A, E>,
) -> Seq<HsAction<W, A, E>> {
    match result {
        Ok(result) => success_actions(callback, try_put_mvar, result),
        Err(error) => failure_actions(callback, try_put_mvar, error),
    }
}

impl<A, E> HsCallback<A, E> {
    /// Reports success: the result slot gets the result, the error slot null, the thread is woken.
    pub fn put_success<W>(self, try_put_mvar: W, result: A) -> (actions: Vec<HsAction<W, A, E>>)
        ensures
            actions@ == success_actions(self, try_put_mvar, result),
    {
        let mut actions = Vec::new();
        actions.push(HsAction::SetResult { result_slot: self.result_slot, result: Some(result) });
        actions.push(HsAction::SetError { error_slot: self.error_slot, error: None });
        actions.push(HsAction::TryPutMVar { try_put_mvar, cap: self.cap, mvar: self.mvar });
        actions
    }

    /// Reports failure: the error slot gets the error, the result slot null, the thread is woken.
    pub fn put_failure<W>(self, try_put_mvar: W, error: E) -> (actions: Vec<HsAction<W, A, E>>)
        ensures
            actions@ == failure_actions(self, try_put_mvar, error),
    {
        let mut actions = Vec::new();
        actions.push(HsAction::SetError { error_slot: self.error_slot, error: Some(error) });
        actions.push(HsAction::SetResult { result_slot: self.result_slot, result: None });
        actions.push(HsAction::TryPutMVar { try_put_mvar, cap: self.cap, mvar: self.mvar });
        actions
    }

    /// Reports the outcome of a call, success or failure.
    pub fn put_result<W>(self, try_put_mvar: W, result: Result<A, E>) -> (actions: Vec<
        HsAction<W, A, E>,
    >)
        ensures
            actions@ == result_actions(self, try_put_mvar, result),
    {
        match result {
            Ok(result) => self.put_success(try_put_mvar, result),
            Err(error) => self.put_failure(try_put_mvar, error),
        }
    }
}

/// What a slot holds.
pub enum Cell<A, E> {
    Null,
    Result(A),
    Error(E),
}

/// What the Haskell side can see: its slots by address, and the `MVar`s filled so far.
#[verifier::ext_equal]
pub struct HsMemory<W, A, E> {
    pub cells: Map<usize, Cell<A, E>>,
    pub puts: Seq<(W, Capability, MVar)>,
}

/// The memory after one step.
pub open spec fn performed<W, A, E>(
    memory: HsMemory<W, A, E>,
    action: HsAction<W, A, E>,
) -> HsMemory<W, A, E> {
    match action {
        HsAction::SetResult { result_slot, result } => HsMemory {
            cells: memory.cells.insert(
                result_slot.address,
                match result {
                    Some(result) => Cell::Result(result),
                    None => Cell::Null,
                },
            ),
            ..memory
        },
        HsAction::SetError { error_slot, error } => HsMemory {
            cells: memory.cells.insert(
                error_slot.address,
                match error {
                    Some(error) => Cell::Error(error),
                    None => Cell::Null,
                },
            ),
            ..memory
        },
        HsAction::TryPutMVar { try_put_mvar, cap, mvar } => HsMemory {
            puts: memory.puts.push((try_put_mvar, cap, mvar)),
            ..memory
        },
    }
}

/// The memory after all steps, first to last.
pub open spec fn performed_all<W, A, E>(
    memory: HsMemory<W, A, E>,
    actions: Seq<HsAction<W, A, E>>,
) -> HsMemory<W, A, E>
    decreases actions.len(),
{
    if actions.len() == 0 {
        memory
    } else {
        performed(performed_all(memory, actions.drop_last()), actions.last())
    }
}

/// The memory that a reported outcome leads to: the slot of the outcome holds it, the other slot
/// holds null, nothing else changes, and the thread's own `MVar` is filled once.
pub open spec fn delivered<W, A, E>(
    memory: HsMemory<W, A, E>,
    callback: HsCallback<A, E>,
    try_put_mvar: W,
    result: Result<A, E>,
) -> HsMemory<W, A, E> {
    let (in_result, in_error) = match result {
        Ok(result) => (Cell::Result(result), Cell::Null),
        Err(error) => (Cell::Null, Cell::Error(error)),
    };
    HsMemory {
        cells: memory.cells.insert(callback.result_slot.address, in_result).insert(
            callback.error_slot.address,
            in_error,
        ),
        puts: memory.puts.push((try_put_mvar, callback.cap, callback.mvar)),
    }
}

/// Performing three steps one after the other.
proof fn lemma_three_steps<W, A, E>(
    memory: HsMemory<W, A, E>,
    first: HsAction<W, A, E>,
    second: HsAction<W, A, E>,
    third: HsAction<W, A, E>,
)
    ensures
        performed_all(memory, seq![first, second]) == performed(performed(memory, first), second),
        performed_all(memory, seq![first, second, third]) == performed(
            performed(performed(memory, first), second),
            third,
        ),
{
    reveal_with_fuel(performed_all, 4);
    let three = seq![first, second, third];
    assert(three.drop_last() =~= seq![first, second]);
    assert(seq![first, second].drop_last() =~= seq![first]);
    assert(seq![first].drop_last() =~= Seq::empty());
}

/// Whatever a call ends in, reporting it leaves exactly one of the two slots with a value and the
/// other with null, touches no other slot, and wakes the waiting thread exactly once.
pub proof fn law_outcome_fills_one_slot_and_wakes_once<W, A, E>(
    memory: HsMemory<W, A, E>,
    callback: HsCallback<A, E>,
    try_put_mvar: W,
    result: Result<A, E>,
)
    requires
        callback.result_slot.address != callback.error_slot.address,
    ensures
        performed_all(memory, result_actions(callback, try_put_mvar, result)) == delivered(
            memory,
            callback,
            try_put_mvar,
            result,
        ),
        ({
            let seen = performed_all(memory, result_actions(callback, try_put_mvar, result));
            &&& seen.cells.contains_key(callback.result_slot.address)
            &&& seen.cells.contains_key(callback.error_slot.address)
            &&& seen.cells[callback.result_slot.address] == if result is Ok {
                Cell::<A, E>::Result(result->Ok_0)
            } else {
                Cell::<A, E>::Null
            }
            &&& seen.cells[callback.error_slot.address] == if result is Err {
                Cell::<A, E>::Error(result->Err_0)
            } else {
                Cell::<A, E>::Null
            }
            &&& forall|address: usize|
                address != callback.result_slot.address && address != callback.error_slot.address
                    ==> {
                    &&& #[trigger] seen.cells.contains_key(address) <==> memory.cells.contains_key(
                        address,
                    )
                    &&& seen.cells[address] == memory.cells[address]
                }
            &&& seen.puts.len() == memory.puts.len() + 1
            &&& seen.puts.drop_last() == memory.puts
            &&& seen.puts.last() == (try_put_mvar, callback.cap, callback.mvar)
        }),
{
    let actions = result_actions(callback, try_put_mvar, result);
    lemma_three_steps(memory, actions[0], actions[1], actions[2]);
    assert(actions =~= seq![actions[0], actions[1], actions[2]]);
    assert(performed_all(memory, actions) =~= delivered(memory, callback, try_put_mvar, result));
    assert(performed_all(memory, actions).puts.drop_last() =~= memory.puts);
}

/// A step does what its name says and nothing else: a slot takes the value, or null for none, all
/// other slots stay, and only filling an `MVar` wakes anyone.
pub proof fn law_step_changes_one_thing<W, A, E>(
    memory: HsMemory<W, A, E>,
    action: HsAction<W, A, E>,
)
    ensures
        match action {
            HsAction::SetResult { result_slot, result } => {
                &&& performed(memory, action).puts == memory.puts
                &&& performed(memory, action).cells == memory.cells.insert(
                    result_slot.address,
                    if result is Some {
                        Cell::<A, E>::Result(result->0)
                    } else {
                        Cell::<A, E>::Null
                    },
                )
            },
            HsAction::SetError { error_slot, error } => {
                &&& performed(memory, action).puts == memory.puts
                &&& performed(memory, action).cells == memory.cells.insert(
                    error_slot.address,
                    if error is Some {
                        Cell::<A, E>::Error(error->0)
                    } else {
                        Cell::<A, E>::Null
                    },
                )
            },
            HsAction::TryPutMVar { try_put_mvar, cap, mvar } => {
                &&& performed(memory, action).cells == memory.cells
                &&& performed(memory, action).puts == memory.puts.push((try_put_mvar, cap, mvar))
            },
        },
{
}

/// Steps are performed one after the other, first to last: performing some and then more is
/// performing them all, and performing none changes nothing.
pub proof fn law_steps_are_performed_in_order<W, A, E>(
    memory: HsMemory<W, A, E>,
    first: Seq<HsAction<W, A, E>>,
    after: Seq<HsAction<W, A, E>>,
)
    ensures
        performed_all(memory, Seq::<HsAction<W, A, E>>::empty()) == memory,
        performed_all(memory, first + after) == performed_all(performed_all(memory, first), after),
        after.len() == 1 ==> performed_all(memory, first + after) == performed(
            performed_all(memory, first),
            after[0],
        ),
    decreases after.len(),
{
    if after.len() == 0 {
        assert(first + after =~= first);
    } else {
        law_steps_are_performed_in_order(memory, first, after.drop_last());
        assert((first + after).drop_last() =~= first + after.drop_last());
        if after.len() == 1 {
            assert(first + after.drop_last() =~= first);
        }
    }
}

/// The steps of an outcome are three, on the waiting thread's own slots, capability and `MVar`: the
/// outcome is stored first, then the other slot is cleared, then the thread is woken through the
/// given function.
pub proof fn law_outcome_is_stored_then_cleared_then_woken<W, A, E>(
    callback: HsCallback<A, E>,
    try_put_mvar: W,
    result: Result<A, E>,
)
    ensures
        ({
            let actions = result_actions(callback, try_put_mvar, result);
            &&& actions.len() == 3
            &&& result is Ok ==> {
                &&& actions[0] == (HsAction::<W, A, E>::SetResult {
                    result_slot: callback.result_slot,
                    result: Some(result->Ok_0),
                })
                &&& actions[1] == (HsAction::<W, A, E>::SetError {
                    error_slot: callback.error_slot,
                    error: None,
                })
            }
            &&& result is Err ==> {
                &&& actions[0] == (HsAction::<W, A, E>::SetError {
                    error_slot: callback.error_slot,
                    error: Some(result->Err_0),
                })
                &&& actions[1] == (HsAction::<W, A, E>::SetResult {
                    result_slot: callback.result_slot,
                    result: None,
                })
            }
            &&& actions[2] == (HsAction::<W, A, E>::TryPutMVar {
                try_put_mvar,
                cap: callback.cap,
                mvar: callback.mvar,
            })
        }),
{
}

/// Success and failure are reported as the outcome of a call is: there is one way to report each.
pub proof fn law_success_and_failure_are_outcomes<W, A, E>(
    callback: HsCallback<A, E>,
    try_put_mvar: W,
    result: A,
    error: E,
)
    ensures
        success_actions(callback, try_put_mvar, result) == result_actions(
            callback,
            try_put_mvar,
            Ok(result),
        ),
        failure_actions(callback, try_put_mvar, error) == result_actions(
            callback,
            try_put_mvar,
            Err(error),
        ),
{
}

/// The waiting thread is woken last: by then both slots hold what they will hold, and no `MVar`
/// has been filled before.
pub proof fn law_slots_are_written_before_waking<W, A, E>(
    memory: HsMemory<W, A, E>,
    callback: HsCallback<A, E>,
    try_put_mvar: W,
    result: Result<A, E>,
)
    ensures
        ({
            let actions = result_actions(callback, try_put_mvar, result);
            let before_waking = performed_all(memory, actions.drop_last());
            &&& actions.last() == (HsAction::<W, A, E>::TryPutMVar {
                try_put_mvar,
                cap: callback.cap,
                mvar: callback.mvar,
            })
            &&& before_waking.cells == performed_all(memory, actions).cells
            &&& before_waking.puts == memory.puts
        }),
{
    let actions = result_actions(callback, try_put_mvar, result);
    lemma_three_steps(memory, actions[0], actions[1], actions[2]);
    assert(actions.drop_last() =~= seq![actions[0], actions[1]]);
}

} // verus!
