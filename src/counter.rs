use vstd::prelude::*;
use crate::common::CsModel;

verus! {

/// Where a worker stands in a read-increment-write of a shared counter that it
/// performs only while holding the lock.
pub enum WorkerPhase {
    Idle,
    /// Holds the lock.
    Holding,
    /// Holds the lock and has read `value` from the counter.
    Read { value: int },
    /// Holds the lock and has written its increment.
    Wrote,
    /// Released the lock, normally or while unwinding.
    Finished,
}

impl WorkerPhase {
    /// Between entering and releasing.
    pub open spec fn is_inside(self) -> bool {
        self is Holding || self is Read || self is Wrote
    }
}

/// A lock, a counter that it protects, the number of increments written so
/// far, and the phase of every worker thread.
pub struct CounterSystem {
    pub lock: CsModel,
    pub counter: int,
    pub written: nat,
    pub phases: Map<u64, WorkerPhase>,
}

/// The next step of one worker thread.
pub enum CounterEvent {
    /// Enters the lock; waits (no change) while another thread holds it.
    Acquire(u64),
    /// Reads the counter.
    Read(u64),
    /// Writes back what it read plus one.
    Write(u64),
    /// Releases the lock normally.
    Release(u64),
    /// Panics while inside: its guard is released during unwinding.
    Panic(u64),
}

/// Workers that have not started, over a live lock that nobody holds.
pub open spec fn counter_initial(lock: CsModel) -> CounterSystem {
    CounterSystem {
        lock,
        counter: 0,
        written: 0,
        phases: Map::new(|t: u64| true, |t: u64| WorkerPhase::Idle),
    }
}

/// The system after one step; a step its worker cannot take changes nothing.
pub open spec fn counter_step(s: CounterSystem, e: CounterEvent) -> CounterSystem {
    match e {
        CounterEvent::Acquire(t) => if s.phases[t] is Idle && s.lock.available_to(t) {
            CounterSystem {
                lock: s.lock.entered(t),
                phases: s.phases.insert(t, WorkerPhase::Holding),
                ..s
            }
        } else {
            s
        },
        CounterEvent::Read(t) => if s.phases[t] is Holding {
            CounterSystem {
                phases: s.phases.insert(t, WorkerPhase::Read { value: s.counter }),
                ..s
            }
        } else {
            s
        },
        CounterEvent::Write(t) => match s.phases[t] {
            WorkerPhase::Read { value } => CounterSystem {
                counter: value + 1,
                written: s.written + 1,
                phases: s.phases.insert(t, WorkerPhase::Wrote),
                ..s
            },
            _ => s,
        },
        CounterEvent::Release(t) => if s.phases[t] is Wrote {
            CounterSystem {
                lock: s.lock.released(false),
                phases: s.phases.insert(t, WorkerPhase::Finished),
                ..s
            }
        } else {
            s
        },
        CounterEvent::Panic(t) => if s.phases[t].is_inside() {
            CounterSystem {
                lock: s.lock.released(true),
                phases: s.phases.insert(t, WorkerPhase::Finished),
                ..s
            }
        } else {
            s
        },
    }
}

/// The system after the steps, in order.
pub open spec fn counter_run(s: CounterSystem, events: Seq<CounterEvent>) -> CounterSystem
    decreases events.len(),
{
    if events.len() == 0 {
        s
    } else {
        counter_run(counter_step(s, events[0]), events.drop_first())
    }
}

/// What holds of every state reachable from `counter_initial`.
pub open spec fn counter_inv(s: CounterSystem) -> bool {
    &&& s.lock.live
    &&& (s.lock.owner is None <==> s.lock.depth == 0)
    &&& forall|t: u64| s.phases.dom().contains(t)
    &&& forall|t: u64| #[trigger] s.phases[t].is_inside() <==> s.lock.owner == Some(t)
    &&& s.lock.owner is Some ==> s.lock.depth == 1
    &&& forall|t: u64| #[trigger] s.phases[t] is Read ==> s.phases[t]->value == s.counter
    &&& s.counter == s.written
}

proof fn lemma_counter_step(s: CounterSystem, e: CounterEvent)
    requires
        counter_inv(s),
    ensures
        counter_inv(counter_step(s, e)),
{
    let s2 = counter_step(s, e);
    let t = match e {
        CounterEvent::Acquire(t) => t,
        CounterEvent::Read(t) => t,
        CounterEvent::Write(t) => t,
        CounterEvent::Release(t) => t,
        CounterEvent::Panic(t) => t,
    };
    assert(s.phases[t].is_inside() <==> s.lock.owner == Some(t));
    assert forall|u: u64| #[trigger] s2.phases[u].is_inside() <==> s2.lock.owner == Some(u) by {
        assert(s.phases[u].is_inside() <==> s.lock.owner == Some(u));
        if u != t {
            assert(s2.phases[u] == s.phases[u]);
        }
    }
    assert forall|u: u64| #[trigger] s2.phases[u] is Read implies s2.phases[u]->value
        == s2.counter by {
        assert(s.phases[u].is_inside() <==> s.lock.owner == Some(u));
        if u != t {
            assert(s2.phases[u] == s.phases[u]);
            if s.phases[u] is Read {
                assert(s.phases[u].is_inside());
                assert(s.phases[u]->value == s.counter);
            }
        }
    }
}

proof fn lemma_counter_run(s: CounterSystem, events: Seq<CounterEvent>)
    requires
        counter_inv(s),
    ensures
        counter_inv(counter_run(s, events)),
    decreases events.len(),
{
    if events.len() > 0 {
        lemma_counter_step(s, events[0]);
        lemma_counter_run(counter_step(s, events[0]), events.drop_first());
    }
}

/// However many workers there are and however their steps interleave, at
/// most one of them is inside the lock at any time, and the counter equals the
/// number of increments written: no read-increment-write is lost, and a worker
/// that panics before writing adds nothing.
pub proof fn lemma_mutual_exclusion(lock: CsModel, events: Seq<CounterEvent>)
    requires
        lock.live,
        lock.owner is None,
        lock.depth == 0,
    ensures
        ({
            let s = counter_run(counter_initial(lock), events);
            &&& s.counter == s.written
            &&& forall|t: u64, u: u64|
                #[trigger] s.phases[t].is_inside() && #[trigger] s.phases[u].is_inside() ==> t == u
        }),
{
    let s0 = counter_initial(lock);
    assert forall|t: u64| #[trigger] s0.phases[t].is_inside() <==> s0.lock.owner == Some(t) by {}
    lemma_counter_run(s0, events);
    let s = counter_run(s0, events);
    assert forall|t: u64, u: u64|
        #[trigger] s.phases[t].is_inside() && #[trigger] s.phases[u].is_inside() implies t == u by {
        assert(s.lock.owner == Some(t));
        assert(s.lock.owner == Some(u));
    }
}

} // verus!
