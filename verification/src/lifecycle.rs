//! What holds of runtimes over any course of events.

use crate::runtime::{acquired, released, started, torn_down, Held, Teardown};
use vstd::prelude::*;

verus! {

/// Something that happens to a runtime.
pub enum Event<C, D> {
    /// A runtime is started, and its first handle given out.
    Start { runtime: C, dropper: D },
    /// A handle is cloned, or a call begins.
    Acquire { key: u64 },
    /// A handle is given up, or a call ends.
    Release { key: u64 },
}

/// The runtimes alive, and what has become of all the others.
pub struct History<C, D> {
    /// The runtimes that are alive.
    pub held: Map<u64, Held<C, D>>,
    /// The number of runtimes started so far, which is the next key.
    pub next_key: nat,
    /// What was started under each key.
    pub begun: Map<u64, Teardown<C, D>>,
    /// What has been sent to dropper threads, in order.
    pub ended: Seq<(u64, Teardown<C, D>)>,
}

/// Nothing has happened yet.
pub open spec fn no_history<C, D>() -> History<C, D> {
    History { held: Map::empty(), next_key: 0, begun: Map::empty(), ended: Seq::empty() }
}

/// An event can happen: a holder comes and goes only at a runtime that is alive.
pub open spec fn possible<C, D>(history: History<C, D>, event: Event<C, D>) -> bool {
    match event {
        Event::Start { .. } => history.next_key < u64::MAX,
        Event::Acquire { key } => history.held.contains_key(key),
        Event::Release { key } => history.held.contains_key(key),
    }
}

/// The history after one more event.
pub open spec fn after<C, D>(history: History<C, D>, event: Event<C, D>) -> History<C, D> {
    match event {
        Event::Start { runtime, dropper } => History {
            held: started(history.held, history.next_key as u64, runtime, dropper),
            next_key: history.next_key + 1,
            begun: history.begun.insert(
                history.next_key as u64,
                Teardown { runtime, dropper },
            ),
            ..history
        },
        Event::Acquire { key } => History { held: acquired(history.held, key), ..history },
        Event::Release { key } => History {
            held: released(history.held, key),
            ended: match torn_down(history.held, key) {
                Some(teardown) => history.ended.push((key, teardown)),
                None => history.ended,
            },
            ..history
        },
    }
}

/// The history of a course of events from the very beginning.
pub open spec fn history_of<C, D>(events: Seq<Event<C, D>>) -> History<C, D>
    decreases events.len(),
{
    if events.len() == 0 {
        no_history()
    } else {
        after(history_of(events.drop_last()), events.last())
    }
}

/// Each event of the course was possible when it happened.
pub open spec fn all_possible<C, D>(events: Seq<Event<C, D>>) -> bool
    decreases events.len(),
{
    events.len() > 0 ==> {
        &&& all_possible(events.drop_last())
        &&& possible(history_of(events.drop_last()), events.last())
    }
}

/// How many holders came to the runtime under `key`, less how many went.
pub open spec fn balance<C, D>(events: Seq<Event<C, D>>, key: u64) -> int
    decreases events.len(),
{
    if events.len() == 0 {
        0
    } else {
        let earlier = events.drop_last();
        balance(earlier, key) + match events.last() {
            Event::Start { .. } => if history_of(earlier).next_key == key { 1int } else { 0int },
            Event::Acquire { key: k } => if k == key { 1int } else { 0int },
            Event::Release { key: k } => if k == key { -1int } else { 0int },
        }
    }
}

/// Every runtime that was ever started is either alive, with a holder, or was sent to its own
/// dropper thread exactly once, as it was started; and the two kinds together are all of them.
pub open spec fn accounted_for<C, D>(history: History<C, D>) -> bool {
    &&& history.held.dom().finite()
    &&& history.held.len() + history.ended.len() == history.next_key
    &&& forall|key: u64| #[trigger] history.begun.contains_key(key) <==> key < history.next_key
    &&& forall|key: u64| #[trigger]
        history.held.contains_key(key) ==> {
            &&& key < history.next_key
            &&& history.held[key].holders >= 1
            &&& history.begun[key] == (Teardown {
                runtime: history.held[key].runtime,
                dropper: history.held[key].dropper,
            })
        }
    &&& forall|i: int| #![trigger history.ended[i]]
        0 <= i < history.ended.len() ==> {
            &&& history.ended[i].0 < history.next_key
            &&& !history.held.contains_key(history.ended[i].0)
            &&& history.begun[history.ended[i].0] == history.ended[i].1
        }
    &&& forall|i: int, j: int| #![trigger history.ended[i], history.ended[j]]
        0 <= i < j < history.ended.len() ==> history.ended[i].0 != history.ended[j].0
}

/// Over any course of events each runtime is torn down at most once, on the dropper thread that
/// was started with it, and never while it has a holder. The runtimes alive and those torn down
/// are together all that were ever started.
pub proof fn law_every_runtime_is_accounted_for<C, D>(events: Seq<Event<C, D>>)
    requires
        all_possible(events),
    ensures
        accounted_for(history_of(events)),
    decreases events.len(),
{
    if events.len() > 0 {
        law_every_runtime_is_accounted_for(events.drop_last());
    }
}

/// Over any course of events a runtime is alive exactly as long as more holders have come than
/// gone, and has that many holders.
pub proof fn law_alive_while_held<C, D>(events: Seq<Event<C, D>>, key: u64)
    requires
        all_possible(events),
    ensures
        balance(events, key) >= 0,
        history_of(events).held.contains_key(key) <==> balance(events, key) > 0,
        history_of(events).held.contains_key(key) ==> history_of(events).held[key].holders
            == balance(events, key),
    decreases events.len(),
{
    if events.len() > 0 {
        law_alive_while_held(events.drop_last(), key);
        law_every_runtime_is_accounted_for(events.drop_last());
        law_every_runtime_is_accounted_for(events);
    }
}

/// Starting a runtime adds it, as it is and with its own dropper, with exactly one holder, and
/// changes no other runtime.
pub proof fn law_start_adds_one_held_runtime<C, D>(
    held: Map<u64, Held<C, D>>,
    key: u64,
    runtime: C,
    dropper: D,
)
    ensures
        started(held, key, runtime, dropper).contains_key(key),
        started(held, key, runtime, dropper)[key].runtime == runtime,
        started(held, key, runtime, dropper)[key].dropper == dropper,
        started(held, key, runtime, dropper)[key].holders == 1,
        started(held, key, runtime, dropper).remove(key) == held.remove(key),
{
    assert(started(held, key, runtime, dropper).remove(key) =~= held.remove(key));
}

/// A new holder is one more holder of the same runtime, with the same dropper, and changes no other
/// runtime.
pub proof fn law_acquire_adds_one_holder<C, D>(held: Map<u64, Held<C, D>>, key: u64)
    requires
        held.contains_key(key),
    ensures
        acquired(held, key).contains_key(key),
        acquired(held, key)[key].runtime == held[key].runtime,
        acquired(held, key)[key].dropper == held[key].dropper,
        acquired(held, key)[key].holders == held[key].holders + 1,
        acquired(held, key).remove(key) == held.remove(key),
{
    assert(acquired(held, key).remove(key) =~= held.remove(key));
}

/// A holder that goes is one holder less. Only the last one ends the runtime, and then exactly that
/// runtime goes to its own dropper thread; any other leaves runtime and dropper as they are. No
/// other runtime changes either way.
pub proof fn law_release_takes_one_holder<C, D>(held: Map<u64, Held<C, D>>, key: u64)
    requires
        held.contains_key(key),
        held[key].holders >= 1,
    ensures
        released(held, key).remove(key) == held.remove(key),
        released(held, key).contains_key(key) <==> held[key].holders > 1,
        torn_down(held, key) is Some <==> held[key].holders == 1,
        held[key].holders > 1 ==> {
            &&& released(held, key)[key].runtime == held[key].runtime
            &&& released(held, key)[key].dropper == held[key].dropper
            &&& released(held, key)[key].holders + 1 == held[key].holders
        },
        held[key].holders == 1 ==> {
            &&& torn_down(held, key)->0.runtime == held[key].runtime
            &&& torn_down(held, key)->0.dropper == held[key].dropper
        },
{
    assert(released(held, key).remove(key) =~= held.remove(key));
}

/// The number of runtimes alive counts runtimes, not handles: it grows by one with each runtime
/// started, stays as it is when a holder comes, and shrinks by one exactly when a runtime is sent to
/// its dropper thread.
pub proof fn law_live_count_follows_runtimes<C, D>(
    held: Map<u64, Held<C, D>>,
    key: u64,
    runtime: C,
    dropper: D,
)
    requires
        held.dom().finite(),
    ensures
        !held.contains_key(key) ==> started(held, key, runtime, dropper).len() == held.len() + 1,
        held.contains_key(key) ==> {
            &&& acquired(held, key).len() == held.len()
            &&& released(held, key).len() == held.len() - if torn_down(held, key) is Some {
                1int
            } else {
                0int
            }
        },
{
    if held.contains_key(key) {
        assert(acquired(held, key).dom() =~= held.dom());
        assert(held[key].holders > 1 ==> released(held, key).dom() =~= held.dom());
    }
}

/// Cloning a handle starts no runtime and ends none, and giving up the clone undoes it.
pub proof fn law_clone_is_undone_by_release<C, D>(held: Map<u64, Held<C, D>>, key: u64)
    requires
        held.contains_key(key),
        held[key].holders >= 1,
    ensures
        acquired(held, key).dom() == held.dom(),
        acquired(held, key).len() == held.len(),
        torn_down(acquired(held, key), key) is None,
        released(acquired(held, key), key) == held,
{
    assert(acquired(held, key).dom() =~= held.dom());
    assert(released(acquired(held, key), key) =~= held);
}

/// The runtimes after `n` holders of one of them have gone.
pub open spec fn released_times<C, D>(
    held: Map<u64, Held<C, D>>,
    key: u64,
    n: nat,
) -> Map<u64, Held<C, D>>
    decreases n,
{
    if n == 0 {
        held
    } else {
        released(released_times(held, key, (n - 1) as nat), key)
    }
}

/// All but the last of a runtime's holders can go without ending it or changing any other runtime.
pub proof fn law_last_holder_keeps_runtime_alive<C, D>(
    held: Map<u64, Held<C, D>>,
    key: u64,
    n: nat,
)
    requires
        held.contains_key(key),
        n < held[key].holders,
    ensures
        released_times(held, key, n) == held.insert(
            key,
            Held { holders: (held[key].holders - n) as nat, ..held[key] },
        ),
        released_times(held, key, n).contains_key(key),
        released_times(held, key, n).len() == held.len(),
    decreases n,
{
    let expected = held.insert(key, Held { holders: (held[key].holders - n) as nat, ..held[key] });
    if n > 0 {
        law_last_holder_keeps_runtime_alive(held, key, (n - 1) as nat);
    }
    assert(released_times(held, key, n) =~= expected);
    assert(expected.dom() =~= held.dom());
}

/// A pending call outlives every handle: with all other holders gone the runtime is still alive,
/// and the end of the call hands it, and no other runtime, to its dropper thread.
pub proof fn law_pending_call_keeps_runtime_alive<C, D>(held: Map<u64, Held<C, D>>, key: u64)
    requires
        held.contains_key(key),
        held[key].holders >= 1,
    ensures
        ({
            let calling = acquired(held, key);
            let abandoned = released_times(calling, key, held[key].holders);
            &&& abandoned.contains_key(key)
            &&& abandoned[key].holders == 1
            &&& abandoned.len() == held.len()
            &&& torn_down(abandoned, key) == Some(
                Teardown { runtime: held[key].runtime, dropper: held[key].dropper },
            )
            &&& released(abandoned, key) == held.remove(key)
        }),
{
    let calling = acquired(held, key);
    let abandoned = released_times(calling, key, held[key].holders);
    law_clone_is_undone_by_release(held, key);
    law_last_holder_keeps_runtime_alive(calling, key, held[key].holders);
    assert(released(abandoned, key) =~= held.remove(key));
}

} // verus!
