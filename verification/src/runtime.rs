//! Which handles and pending calls keep a Core runtime alive, and when it is torn down.
//!
//! Handles share the runtime behind them. The runtime goes only when the last of its holders goes,
//! and then not in place: it is handed to the dropper thread that was started with it, so that a
//! worker of its own thread pool never tears it down.

use crate::callback::{result_actions, HsAction, HsCallback};
use std::collections::HashMap;
use vstd::prelude::*;

verus! {

broadcast use vstd::std_specs::hash::group_hash_axioms;

/// A Core runtime of type `C`, and the way of type `D` to its dropper thread.
pub struct CoreRuntimeDeferredDrop<C, D> {
    pub runtime: C,
    pub dropper: D,
}

/// A runtime that has lost its last holder and is to be sent to its dropper thread.
pub struct Teardown<C, D> {
    pub runtime: C,
    pub dropper: D,
}

impl<C, D> CoreRuntimeDeferredDrop<C, D> {
    /// Takes charge of a runtime that has just been started, and counts it.
    pub fn new(runtime: C, dropper: D, live: &mut u64) -> (deferred: Self)
        requires
            *old(live) < u64::MAX,
        ensures
            deferred == (CoreRuntimeDeferredDrop { runtime, dropper }),
            *final(live) == *old(live) + 1,
    {
        *live = *live + 1;
        CoreRuntimeDeferredDrop { runtime, dropper }
    }

    /// The runtime in charge.
    pub fn deref(&self) -> (runtime: &C)
        ensures
            *runtime == self.runtime,
    {
        &self.runtime
    }

    /// Gives up the runtime, for its dropper thread, and counts it no longer.
    pub fn drop(self, live: &mut u64) -> (teardown: Teardown<C, D>)
        requires
            *old(live) > 0,
        ensures
            teardown == (Teardown { runtime: self.runtime, dropper: self.dropper }),
            *final(live) == *old(live) - 1,
    {
        *live = *live - 1;
        Teardown { runtime: self.runtime, dropper: self.dropper }
    }
}

/// A runtime and the number of its holders.
struct Shared<C, D> {
    deferred: CoreRuntimeDeferredDrop<C, D>,
    holders: u64,
}

/// A runtime that is alive, its dropper, and the number of handles and pending calls holding it.
pub struct Held<C, D> {
    pub runtime: C,
    pub dropper: D,
    pub holders: nat,
}

impl<C, D> Shared<C, D> {
    spec fn held(self) -> Held<C, D> {
        Held {
            runtime: self.deferred.runtime,
            dropper: self.deferred.dropper,
            holders: self.holders as nat,
        }
    }
}

/// All runtimes that are alive, each under a key of its own.
pub struct CoreRuntimes<C, D> {
    live: u64,
    next_key: u64,
    shared: HashMap<u64, Shared<C, D>>,
}

/// A runtime has been started under `key`, with one holder.
pub open spec fn started<C, D>(
    held: Map<u64, Held<C, D>>,
    key: u64,
    runtime: C,
    dropper: D,
) -> Map<u64, Held<C, D>> {
    held.insert(key, Held { runtime, dropper, holders: 1 })
}

/// The runtime under `key` has got one more holder.
pub open spec fn acquired<C, D>(held: Map<u64, Held<C, D>>, key: u64) -> Map<u64, Held<C, D>> {
    held.insert(key, Held { holders: held[key].holders + 1, ..held[key] })
}

/// The runtime under `key` has lost one holder: with its last one it is gone.
pub open spec fn released<C, D>(held: Map<u64, Held<C, D>>, key: u64) -> Map<u64, Held<C, D>> {
    if held[key].holders <= 1 {
        held.remove(key)
    } else {
        held.insert(key, Held { holders: (held[key].holders - 1) as nat, ..held[key] })
    }
}

/// What losing one holder sends to the dropper thread: the runtime under `key` if that holder was
/// its last, else nothing.
pub open spec fn torn_down<C, D>(held: Map<u64, Held<C, D>>, key: u64) -> Option<Teardown<C, D>> {
    if held[key].holders <= 1 {
        Some(Teardown { runtime: held[key].runtime, dropper: held[key].dropper })
    } else {
        None
    }
}

impl<C, D> View for CoreRuntimes<C, D> {
    type V = Map<u64, Held<C, D>>;

    closed spec fn view(&self) -> Map<u64, Held<C, D>> {
        self.shared@.map_values(|shared: Shared<C, D>| shared.held())
    }
}

impl<C, D> CoreRuntimes<C, D> {
    /// The counter of runtimes that are alive.
    pub closed spec fn live_counter(self) -> u64 {
        self.live
    }

    /// The key that the next runtime gets.
    pub closed spec fn next_key(self) -> u64 {
        self.next_key
    }

    /// The counter counts the runtimes that are alive, each of them has a holder, and keys are
    /// given out in ascending order.
    pub open spec fn wf(self) -> bool {
        &&& self@.dom().finite()
        &&& self.live_counter() == self@.len()
        &&& self.live_counter() <= self.next_key()
        &&& forall|key: u64| #[trigger]
            self@.contains_key(key) ==> key < self.next_key() && self@[key].holders >= 1
    }

    /// No runtime at all.
    pub fn new() -> (runtimes: Self)
        ensures
            runtimes.wf(),
            runtimes@ == Map::<u64, Held<C, D>>::empty(),
            runtimes.next_key() == 0,
    {
        let runtimes = CoreRuntimes { live: 0, next_key: 0, shared: HashMap::new() };
        assert(runtimes@ =~= Map::<u64, Held<C, D>>::empty());
        runtimes
    }

    /// Adds a runtime that has just been started; its handle is its one holder.
    pub(crate) fn start(&mut self, runtime: C, dropper: D) -> (key: u64)
        requires
            old(self).wf(),
            old(self).next_key() < u64::MAX,
        ensures
            final(self).wf(),
            key == old(self).next_key(),
            final(self).next_key() == key + 1,
            !old(self)@.contains_key(key),
            final(self)@ == started(old(self)@, key, runtime, dropper),
    {
        let key = self.next_key;
        let deferred = CoreRuntimeDeferredDrop::new(runtime, dropper, &mut self.live);
        self.shared.insert(key, Shared { deferred, holders: 1 });
        self.next_key = key + 1;
        assert(self@ =~= started(old(self)@, key, runtime, dropper));
        key
    }

    /// Adds a holder to a runtime.
    pub(crate) fn acquire(&mut self, key: u64)
        requires
            old(self).wf(),
            old(self)@.contains_key(key),
            old(self)@[key].holders < u64::MAX,
        ensures
            final(self).wf(),
            final(self).next_key() == old(self).next_key(),
            final(self)@ == acquired(old(self)@, key),
    {
        if let Some(shared) = self.shared.remove(&key) {
            self.shared.insert(
                key,
                Shared { deferred: shared.deferred, holders: shared.holders + 1 },
            );
        }
        assert(self@ =~= acquired(old(self)@, key));
    }

    /// Takes a holder from a runtime. With its last holder the runtime is counted no longer and
    /// comes back, to be sent to its dropper thread.
    pub(crate) fn release(&mut self, key: u64) -> (teardown: Option<Teardown<C, D>>)
        requires
            old(self).wf(),
            old(self)@.contains_key(key),
        ensures
            final(self).wf(),
            final(self).next_key() == old(self).next_key(),
            final(self)@ == released(old(self)@, key),
            teardown == torn_down(old(self)@, key),
    {
        match self.shared.remove(&key) {
            Some(shared) => {
                if shared.holders <= 1 {
                    let teardown = shared.deferred.drop(&mut self.live);
                    assert(self@ =~= released(old(self)@, key));
                    Some(teardown)
                } else {
                    self.shared.insert(
                        key,
                        Shared { deferred: shared.deferred, holders: shared.holders - 1 },
                    );
                    assert(self@ =~= released(old(self)@, key));
                    None
                }
            },
            None => None,
        }
    }
}

/// A handle to a Core runtime, and the function of type `W` that wakes Haskell threads.
pub struct Runtime<W> {
    core: u64,
    try_put_mvar: W,
}

/// A handle as the Haskell side holds it.
pub struct RuntimeRef<W> {
    pub runtime: Runtime<W>,
}

impl<W> Runtime<W> {
    /// The key of the runtime behind the handle.
    pub closed spec fn key(self) -> u64 {
        self.core
    }

    /// The function that wakes Haskell threads.
    pub closed spec fn waker(self) -> W {
        self.try_put_mvar
    }
}

/// The task that services one Haskell call.
pub struct CallTask<W, T, E> {
    pub callback: HsCallback<T, E>,
    pub try_put_mvar: W,
}

/// The task that watches over the task of one Haskell call, and holds the runtime meanwhile.
pub struct Supervisor<W> {
    pub runtime: Runtime<W>,
}

/// How the task of a Haskell call ended.
#[derive(Clone, Copy, Debug, PartialEq, Eq, Structural)]
pub enum TaskOutcome {
    /// It ran to its end.
    Completed,
    /// It panicked.
    Panicked,
    /// It was cancelled.
    Cancelled,
}

/// What a supervisor does when the task that it watches has ended.
pub enum SupervisorAction<C, D> {
    /// It is done, and holds the runtime no longer: if it was the last holder, here is what to
    /// send to the dropper thread.
    Released(Option<Teardown<C, D>>),
    /// Print the message and abort the process.
    Abort { message: String },
}

/// What to do once a runtime has been sent to its dropper thread.
pub enum SendOutcome<C> {
    /// The dropper thread has it.
    HandedOver,
    /// There is no dropper thread any more: leak the runtime, print the message and abort the
    /// process.
    ForgetAndAbort { runtime: C, message: String },
}

/// Printed when a call's task has panicked.
pub open spec fn panicked_message() -> Seq<char> {
    "hs-temporal-sdk: panic in the Tokio task servicing a Haskell call; aborting rather than leaving the caller blocked forever"@
}

/// Printed when a call's task has been cancelled.
pub open spec fn cancelled_message() -> Seq<char> {
    "hs-temporal-sdk: Tokio task servicing a Haskell call was cancelled; aborting rather than leaving the caller blocked forever"@
}

/// Printed when a dropper thread is gone.
pub open spec fn dropper_lost_message() -> Seq<char> {
    "hs-temporal-sdk: Core runtime dropper exited unexpectedly; aborting"@
}

impl<C, D> CoreRuntimes<C, D> {
    /// Whether another runtime can be added.
    pub fn has_room(&self) -> (room: bool)
        ensures
            room == (self.next_key() < u64::MAX),
    {
        self.next_key < u64::MAX
    }

    /// The number of holders of the runtime behind a handle, if that runtime is alive.
    pub fn holders<W>(&self, runtime: &Runtime<W>) -> (holders: Option<u64>)
        ensures
            holders is Some <==> self@.contains_key(runtime.key()),
            holders is Some ==> holders->0 == self@[runtime.key()].holders,
    {
        match self.shared.get(&runtime.core) {
            Some(shared) => Some(shared.holders),
            None => None,
        }
    }

    /// The runtime behind a handle.
    pub fn core_runtime<W>(&self, runtime: &Runtime<W>) -> (running: &C)
        requires
            self@.contains_key(runtime.key()),
        ensures
            *running == self@[runtime.key()].runtime,
    {
        self.shared.get(&runtime.core).unwrap().deferred.deref()
    }

    /// Adds a runtime that has just been started, and gives out its first handle.
    pub fn register<W>(&mut self, runtime: C, dropper: D, try_put_mvar: W) -> (handle: RuntimeRef<W>)
        requires
            old(self).wf(),
            old(self).next_key() < u64::MAX,
        ensures
            final(self).wf(),
            final(self).next_key() == old(self).next_key() + 1,
            !old(self)@.contains_key(handle.runtime.key()),
            handle.runtime.key() == old(self).next_key(),
            handle.runtime.waker() == try_put_mvar,
            final(self)@ == started(old(self)@, handle.runtime.key(), runtime, dropper),
    {
        let core = self.start(runtime, dropper);
        RuntimeRef { runtime: Runtime { core, try_put_mvar } }
    }
}

/// The number of runtimes that are alive. Handles to one runtime count once.
pub fn hs_temporal_test_runtime_live_count<C, D>(runtimes: &CoreRuntimes<C, D>) -> (count: u64)
    requires
        runtimes.wf(),
    ensures
        count == runtimes@.len(),
{
    runtimes.live
}

/// Makes a second handle to the runtime behind a handle.
pub fn hs_temporal_clone_runtime<C, D, W: Copy>(
    runtimes: &mut CoreRuntimes<C, D>,
    runtime: &RuntimeRef<W>,
) -> (handle: RuntimeRef<W>)
    requires
        old(runtimes).wf(),
        old(runtimes)@.contains_key(runtime.runtime.key()),
        old(runtimes)@[runtime.runtime.key()].holders < u64::MAX,
    ensures
        final(runtimes).wf(),
        final(runtimes).next_key() == old(runtimes).next_key(),
        final(runtimes)@ == acquired(old(runtimes)@, runtime.runtime.key()),
        handle.runtime.key() == runtime.runtime.key(),
        handle.runtime.waker() == runtime.runtime.waker(),
{
    let core = runtime.runtime.core;
    runtimes.acquire(core);
    RuntimeRef { runtime: Runtime { core, try_put_mvar: runtime.runtime.try_put_mvar } }
}

/// Gives up a handle. The runtime is torn down only with the last of its holders.
fn release_runtime_handle<C, D, W>(
    runtimes: &mut CoreRuntimes<C, D>,
    runtime: RuntimeRef<W>,
) -> (teardown: Option<Teardown<C, D>>)
    requires
        old(runtimes).wf(),
        old(runtimes)@.contains_key(runtime.runtime.key()),
    ensures
        final(runtimes).wf(),
        final(runtimes).next_key() == old(runtimes).next_key(),
        final(runtimes)@ == released(old(runtimes)@, runtime.runtime.key()),
        teardown == torn_down(old(runtimes)@, runtime.runtime.key()),
{
    runtimes.release(runtime.runtime.core)
}

/// Gives up a handle that the Haskell side held.
pub fn hs_temporal_free_runtime<C, D, W>(
    runtimes: &mut CoreRuntimes<C, D>,
    runtime: RuntimeRef<W>,
) -> (teardown: Option<Teardown<C, D>>)
    requires
        old(runtimes).wf(),
        old(runtimes)@.contains_key(runtime.runtime.key()),
    ensures
        final(runtimes).wf(),
        final(runtimes).next_key() == old(runtimes).next_key(),
        final(runtimes)@ == released(old(runtimes)@, runtime.runtime.key()),
        teardown == torn_down(old(runtimes)@, runtime.runtime.key()),
{
    release_runtime_handle(runtimes, runtime)
}

impl<W: Copy> Runtime<W> {
    /// Prepares a Haskell call: the two tasks to schedule for it. From here on the call holds the
    /// runtime, whatever becomes of the handles.
    pub fn future_result_into_hs<C, D, T, E>(
        &self,
        runtimes: &mut CoreRuntimes<C, D>,
        callback: HsCallback<T, E>,
    ) -> (tasks: (CallTask<W, T, E>, Supervisor<W>))
        requires
            old(runtimes).wf(),
            old(runtimes)@.contains_key(self.key()),
            old(runtimes)@[self.key()].holders < u64::MAX,
        ensures
            final(runtimes).wf(),
            final(runtimes).next_key() == old(runtimes).next_key(),
            final(runtimes)@ == acquired(old(runtimes)@, self.key()),
            tasks.0 == (CallTask { callback, try_put_mvar: self.waker() }),
            tasks.1.runtime == *self,
    {
        runtimes.acquire(self.core);
        (
            CallTask { callback, try_put_mvar: self.try_put_mvar },
            Supervisor { runtime: Runtime { core: self.core, try_put_mvar: self.try_put_mvar } },
        )
    }
}

impl<W, T, E> CallTask<W, T, E> {
    /// Reports what the call came to, through the callback.
    pub fn finish(self, result: Result<T, E>) -> (actions: Vec<HsAction<W, T, E>>)
        ensures
            actions@ == result_actions(self.callback, self.try_put_mvar, result),
    {
        self.callback.put_result(self.try_put_mvar, result)
    }
}

impl<W> Supervisor<W> {
    /// Reacts to the end of the call's task. A call that was not serviced to its end would leave
    /// its caller blocked forever, so the process aborts instead.
    pub fn task_ended<C, D>(
        self,
        runtimes: &mut CoreRuntimes<C, D>,
        outcome: TaskOutcome,
    ) -> (action: SupervisorAction<C, D>)
        requires
            old(runtimes).wf(),
            old(runtimes)@.contains_key(self.runtime.key()),
        ensures
            final(runtimes).wf(),
            final(runtimes).next_key() == old(runtimes).next_key(),
            match outcome {
                TaskOutcome::Completed => {
                    &&& final(runtimes)@ == released(old(runtimes)@, self.runtime.key())
                    &&& action == SupervisorAction::Released(
                        torn_down(old(runtimes)@, self.runtime.key()),
                    )
                },
                TaskOutcome::Panicked => {
                    &&& final(runtimes)@ == old(runtimes)@
                    &&& action is Abort
                    &&& action->message@ == panicked_message()
                },
                TaskOutcome::Cancelled => {
                    &&& final(runtimes)@ == old(runtimes)@
                    &&& action is Abort
                    &&& action->message@ == cancelled_message()
                },
            },
    {
        match outcome {
            TaskOutcome::Completed => SupervisorAction::Released(runtimes.release(self.runtime.core)),
            TaskOutcome::Panicked => SupervisorAction::Abort {
                message: "hs-temporal-sdk: panic in the Tokio task servicing a Haskell call; aborting rather than leaving the caller blocked forever".to_owned(),
            },
            TaskOutcome::Cancelled => SupervisorAction::Abort {
                message: "hs-temporal-sdk: Tokio task servicing a Haskell call was cancelled; aborting rather than leaving the caller blocked forever".to_owned(),
            },
        }
    }
}

/// Reacts to the reply of the channel to a dropper thread, which gives back what it could not
/// take. A runtime without its dropper must not be torn down here.
pub fn teardown_sent<C>(sent: Result<(), C>) -> (next: SendOutcome<C>)
    ensures
        match sent {
            Ok(()) => next is HandedOver,
            Err(unsent) => {
                &&& next is ForgetAndAbort
                &&& next->runtime == unsent
                &&& next->message@ == dropper_lost_message()
            },
        },
{
    match sent {
        Ok(()) => SendOutcome::HandedOver,
        Err(runtime) => SendOutcome::ForgetAndAbort {
            runtime,
            message: "hs-temporal-sdk: Core runtime dropper exited unexpectedly; aborting".to_owned(),
        },
    }
}

} // verus!
