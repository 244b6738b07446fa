use vstd::prelude::*;

verus! {

/// Value of a static lock's initialisation word.
#[derive(PartialEq, Eq, Structural, Clone, Copy, Debug)]
pub enum InitState {
    Uninitialized,
    Initializing,
    Initialized,
    Poisoned,
}

/// Word that stands for `s` in the atomic cell.
pub open spec fn word_of(s: InitState) -> usize {
    match s {
        InitState::Uninitialized => 0,
        InitState::Initializing => 1,
        InitState::Initialized => 2,
        InitState::Poisoned => 3,
    }
}

impl InitState {
    pub fn to_word(self) -> (w: usize)
        ensures
            w == word_of(self),
    {
        match self {
            InitState::Uninitialized => 0,
            InitState::Initializing => 1,
            InitState::Initialized => 2,
            InitState::Poisoned => 3,
        }
    }

    /// The state a word stands for; `None` for a word that no state is stored as.
    pub fn from_word(w: usize) -> (r: Option<InitState>)
        ensures
            r matches Some(s) ==> word_of(s) == w,
            r is None <==> w > 3,
    {
        if w == 0 {
            Some(InitState::Uninitialized)
        } else if w == 1 {
            Some(InitState::Initializing)
        } else if w == 2 {
            Some(InitState::Initialized)
        } else if w == 3 {
            Some(InitState::Poisoned)
        } else {
            None
        }
    }
}

/// Where one caller stands in the once-initialisation protocol. Each phase but
/// the last two names the atomic operation the caller performs next.
#[derive(PartialEq, Eq, Structural, Clone, Copy, Debug)]
pub enum InitPhase {
    /// Loads the word (acquire).
    Fresh,
    /// Compares and swaps UNINITIALIZED for INITIALIZING.
    Claiming,
    /// Loads the word again, waiting for the initialiser.
    Spinning,
    /// Won the swap: runs the platform initialisation, then stores the outcome.
    Running,
    /// The lock is initialised: the caller proceeds.
    Done,
    /// Initialisation failed elsewhere: the caller fails fatally.
    Failed,
}

/// Phase after the first load observed `observed`.
pub open spec fn after_load(observed: InitState) -> InitPhase {
    if observed == InitState::Initialized {
        InitPhase::Done
    } else {
        InitPhase::Claiming
    }
}

/// Phase after the compare-and-swap, which succeeded or not.
pub open spec fn after_swap(won: bool) -> InitPhase {
    if won {
        InitPhase::Running
    } else {
        InitPhase::Spinning
    }
}

/// Phase after a waiting load observed `observed`.
pub open spec fn after_poll(observed: InitState) -> InitPhase {
    if observed == InitState::Initialized {
        InitPhase::Done
    } else if observed == InitState::Poisoned {
        InitPhase::Failed
    } else {
        InitPhase::Spinning
    }
}

/// Word stored by the initialiser, and its own phase, once the platform
/// initialisation returned (`ok`) or unwound.
pub open spec fn after_init(ok: bool) -> (InitState, InitPhase) {
    if ok {
        (InitState::Initialized, InitPhase::Done)
    } else {
        (InitState::Poisoned, InitPhase::Failed)
    }
}

/// Effect of the compare-and-swap UNINITIALIZED -> INITIALIZING on a word
/// holding `s`: the new word, and whether the swap took place.
pub open spec fn swap(s: InitState) -> (InitState, bool) {
    if s == InitState::Uninitialized {
        (InitState::Initializing, true)
    } else {
        (s, false)
    }
}

pub fn on_load(observed: InitState) -> (p: InitPhase)
    ensures
        p == after_load(observed),
{
    if observed == InitState::Initialized {
        InitPhase::Done
    } else {
        InitPhase::Claiming
    }
}

pub fn on_swap(won: bool) -> (p: InitPhase)
    ensures
        p == after_swap(won),
{
    if won {
        InitPhase::Running
    } else {
        InitPhase::Spinning
    }
}

pub fn on_poll(observed: InitState) -> (p: InitPhase)
    ensures
        p == after_poll(observed),
{
    if observed == InitState::Initialized {
        InitPhase::Done
    } else if observed == InitState::Poisoned {
        InitPhase::Failed
    } else {
        InitPhase::Spinning
    }
}

pub fn on_init(ok: bool) -> (r: (InitState, InitPhase))
    ensures
        r == after_init(ok),
{
    if ok {
        (InitState::Initialized, InitPhase::Done)
    } else {
        (InitState::Poisoned, InitPhase::Failed)
    }
}

/// The initialisation word shared by a number of callers, each in its phase,
/// with the count of platform initialisations started so far.
pub struct InitSystem {
    pub state: InitState,
    pub phases: Seq<InitPhase>,
    pub runs: nat,
}

/// One atomic step of caller `thread`; `init_ok` tells, for an initialiser,
/// whether the platform initialisation returned.
pub struct InitEvent {
    pub thread: nat,
    pub init_ok: bool,
}

/// `n` callers that have not yet touched an uninitialised lock.
pub open spec fn initial_system(n: nat) -> InitSystem {
    InitSystem {
        state: InitState::Uninitialized,
        phases: Seq::new(n, |i: int| InitPhase::Fresh),
        runs: 0,
    }
}

/// The system after caller `e.thread` performs its next atomic operation.
pub open spec fn system_step(s: InitSystem, e: InitEvent) -> InitSystem {
    if e.thread >= s.phases.len() {
        s
    } else {
        let t = e.thread as int;
        match s.phases[t] {
            InitPhase::Fresh => InitSystem {
                phases: s.phases.update(t, after_load(s.state)),
                ..s
            },
            InitPhase::Claiming => {
                let (next, won) = swap(s.state);
                InitSystem {
                    state: next,
                    phases: s.phases.update(t, after_swap(won)),
                    runs: if won { s.runs + 1 } else { s.runs },
                }
            },
            InitPhase::Spinning => InitSystem {
                phases: s.phases.update(t, after_poll(s.state)),
                ..s
            },
            InitPhase::Running => {
                let (next, phase) = after_init(e.init_ok);
                InitSystem { state: next, phases: s.phases.update(t, phase), ..s }
            },
            _ => s,
        }
    }
}

/// The system after the events, in order.
pub open spec fn system_run(s: InitSystem, events: Seq<InitEvent>) -> InitSystem
    decreases events.len(),
{
    if events.len() == 0 {
        s
    } else {
        system_run(system_step(s, events[0]), events.drop_first())
    }
}

/// What holds of every state reachable from `initial_system`.
pub open spec fn system_inv(s: InitSystem) -> bool {
    &&& s.runs <= 1
    &&& (s.state == InitState::Uninitialized <==> s.runs == 0)
    &&& forall|i: int|
        0 <= i < s.phases.len() && s.phases[i] == InitPhase::Running ==> s.state
            == InitState::Initializing
    &&& forall|i: int, j: int|
        0 <= i < s.phases.len() && 0 <= j < s.phases.len() && s.phases[i] == InitPhase::Running
            && s.phases[j] == InitPhase::Running ==> i == j
    &&& s.state == InitState::Initializing ==> exists|i: int|
        0 <= i < s.phases.len() && s.phases[i] == InitPhase::Running
    &&& forall|i: int|
        0 <= i < s.phases.len() && s.phases[i] == InitPhase::Done ==> s.state
            == InitState::Initialized
    &&& forall|i: int|
        0 <= i < s.phases.len() && s.phases[i] == InitPhase::Failed ==> s.state
            == InitState::Poisoned
}

proof fn lemma_step_inv(s: InitSystem, e: InitEvent)
    requires
        system_inv(s),
    ensures
        system_inv(system_step(s, e)),
        system_step(s, e).phases.len() == s.phases.len(),
{
    let s2 = system_step(s, e);
    if e.thread < s.phases.len() {
        let t = e.thread as int;
        if s.phases[t] == InitPhase::Running {
            assert forall|i: int|
                0 <= i < s2.phases.len() && s2.phases[i] == InitPhase::Running implies false by {
                if i != t {
                    assert(s.phases[i] == InitPhase::Running);
                }
            }
        }
        if s.phases[t] == InitPhase::Claiming && s.state == InitState::Uninitialized {
            assert(s2.phases[t] == InitPhase::Running);
            assert forall|i: int|
                0 <= i < s2.phases.len() && i != t implies s2.phases[i] != InitPhase::Running by {
                if s.phases[i] == InitPhase::Running {
                    assert(s.state == InitState::Initializing);
                }
            }
        }
        if s.state == InitState::Initializing && s.phases[t] != InitPhase::Running {
            let r = choose|i: int| 0 <= i < s.phases.len() && s.phases[i] == InitPhase::Running;
            assert(r != t);
            assert(s2.phases[r] == InitPhase::Running);
        }
    }
}

proof fn lemma_run_inv(s: InitSystem, events: Seq<InitEvent>)
    requires
        system_inv(s),
    ensures
        system_inv(system_run(s, events)),
        system_run(s, events).phases.len() == s.phases.len(),
    decreases events.len(),
{
    if events.len() > 0 {
        lemma_step_inv(s, events[0]);
        lemma_run_inv(system_step(s, events[0]), events.drop_first());
    }
}

/// However the steps of `n` racing callers interleave, the platform
/// initialisation is started at most once; it has been started exactly once as
/// soon as the word leaves UNINITIALIZED, in particular once any caller
/// proceeds; only one caller is ever the initialiser; and a caller proceeds
/// only on an initialised lock and fails only on a poisoned one.
pub proof fn lemma_init_exactly_once(n: nat, events: Seq<InitEvent>)
    ensures
        system_inv(system_run(initial_system(n), events)),
        system_run(initial_system(n), events).phases.len() == n,
{
    let s0 = initial_system(n);
    assert(system_inv(s0));
    lemma_run_inv(s0, events);
}

/// Once the initialiser's platform call returns, every caller proceeds after
/// at most three steps of its own: none is left spinning. When the
/// initialiser unwinds instead, every other caller fails within three steps of
/// its own instead of spinning forever.
pub proof fn lemma_callers_finish(n: nat, events: Seq<InitEvent>, r: nat, t: nat, ok: bool)
    requires
        r < n,
        t < n,
        system_run(initial_system(n), events).phases[r as int] == InitPhase::Running,
    ensures
        ({
            let e = InitEvent { thread: t, init_ok: ok };
            let s = system_step(
                system_run(initial_system(n), events),
                InitEvent { thread: r, init_ok: ok },
            );
            let s3 = system_step(system_step(system_step(s, e), e), e);
            &&& s.state == (if ok { InitState::Initialized } else { InitState::Poisoned })
            &&& s3.phases[t as int] == (if ok { InitPhase::Done } else { InitPhase::Failed })
        }),
{
    lemma_init_exactly_once(n, events);
    let s0 = system_run(initial_system(n), events);
    let e = InitEvent { thread: t, init_ok: ok };
    let s = system_step(s0, InitEvent { thread: r, init_ok: ok });
    lemma_step_inv(s0, InitEvent { thread: r, init_ok: ok });
    assert(s0.state == InitState::Initializing);
    if t != r {
        assert(s0.phases[t as int] != InitPhase::Running);
        assert(s0.phases[t as int] != InitPhase::Done);
        assert(s0.phases[t as int] != InitPhase::Failed);
        assert(s.phases[t as int] == s0.phases[t as int]);
    }
    let s1 = system_step(s, e);
    lemma_step_inv(s, e);
    let s2 = system_step(s1, e);
    lemma_step_inv(s1, e);
}

} // verus!
