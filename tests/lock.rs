use critical_section::{
    deletes_on_drop, on_init, on_load, on_poll, on_swap, poison_on_release, CriticalSection,
    CriticalStatic, EnteredCritical, InitPhase, InitState, LockIds, PoisonableCriticalSection,
};

#[derive(Clone, Copy, PartialEq, Debug)]
enum Step {
    Enter,
    Panic,
    Read,
    Write,
    Leave,
    Done,
}

// 99 workers run round-robin, one step each per round, against one lock.
// Worker 0 panics right after entering; the others each read a shared integer
// in one step and write it back incremented in a later step, with other
// workers' steps in between, so a lock that let two of them in at once would
// lose increments. Returns the integer and which workers panicked.
fn run_wall<L>(
    lock: &mut L,
    try_enter: impl Fn(&mut L, u64) -> Option<EnteredCritical>,
    object: fn(&mut L) -> &mut PoisonableCriticalSection,
) -> (usize, Vec<bool>) {
    let n = 99;
    let mut x: usize = 0;
    let mut steps = vec![Step::Enter; n];
    let mut guards: Vec<Option<EnteredCritical>> = (0..n).map(|_| None).collect();
    let mut read = vec![0usize; n];
    let mut panicked = vec![false; n];
    while steps.iter().any(|s| *s != Step::Done) {
        for i in 0..n {
            match steps[i] {
                Step::Enter => {
                    if let Some(g) = try_enter(lock, i as u64) {
                        guards[i] = Some(g);
                        steps[i] = if i == 0 { Step::Panic } else { Step::Read };
                    }
                }
                Step::Panic => {
                    guards[i].take().unwrap().release(object(lock), true);
                    panicked[i] = true;
                    steps[i] = Step::Done;
                }
                Step::Read => {
                    read[i] = 1 + x;
                    steps[i] = Step::Write;
                }
                Step::Write => {
                    x = read[i];
                    steps[i] = Step::Leave;
                }
                Step::Leave => {
                    guards[i].take().unwrap().leave(object(lock));
                    steps[i] = Step::Done;
                }
                Step::Done => {}
            }
        }
    }
    (x, panicked)
}

#[test]
fn crit_threads_on_the_wall() {
    let mut ids = LockIds::new();
    let mut critical = CriticalSection::new(&mut ids);
    for _ in 0..99 {
        critical.duplicate();
    }
    let (x, panicked) =
        run_wall(&mut critical, |c, t| c.try_enter(t), CriticalSection::object_mut);
    for _ in 0..99 {
        assert!(!critical.drop_handle());
    }
    assert_eq!(98, x);
    assert!(panicked[0]);
    assert!(panicked[1..].iter().all(|p| !p));
    let entered = critical.enter(99);
    assert!(entered.is_poisoned(critical.object()));
}

#[test]
fn crit_static_threads_on_the_wall() {
    let mut ids = LockIds::new();
    let mut critical = CriticalStatic::new(&mut ids);
    let (x, panicked) =
        run_wall(&mut critical, |c, t| c.try_enter(t), CriticalStatic::object_mut);
    assert_eq!(98, x);
    assert!(panicked[0]);
    let entered = critical.enter(99);
    assert!(entered.is_poisoned(critical.object()));
}

#[test]
fn threads_on_the_wall_ref() {
    let mut ids = LockIds::new();
    let mut critical = CriticalStatic::new(&mut ids);
    let crit_ref = critical.get_ref();
    let (x, panicked) =
        run_wall(&mut critical, |c, t| crit_ref.try_enter(c, t), CriticalStatic::object_mut);
    assert_eq!(98, x);
    assert!(panicked[0]);
    let entered = crit_ref.enter(&mut critical, 99);
    assert!(entered.is_poisoned(critical.object()));
}

#[test]
fn reentry_does_not_block_and_excludes_others() {
    let mut ids = LockIds::new();
    let mut cs = CriticalSection::new(&mut ids);
    let outer = cs.enter(5);
    let inner = cs.try_enter(5).expect("the owner re-enters");
    assert!(cs.try_enter(6).is_none());
    inner.leave(cs.object_mut());
    assert!(cs.try_enter(6).is_none());
    outer.leave(cs.object_mut());
    let other = cs.try_enter(6).expect("free after the last release");
    assert!(!other.is_poisoned(cs.object()));
    other.leave(cs.object_mut());
}

#[test]
fn poison_is_cleared_and_stays_clear() {
    let mut ids = LockIds::new();
    let mut cs = CriticalSection::with_spin_count(&mut ids, 100);
    let g = cs.enter(1);
    g.release(cs.object_mut(), true);
    let g = cs.enter(2);
    assert!(g.is_poisoned(cs.object()));
    g.clear_poison(cs.object_mut());
    assert!(!g.is_poisoned(cs.object()));
    g.leave(cs.object_mut());
    let g = cs.enter(3);
    assert!(!g.is_poisoned(cs.object()));
    let h = cs.enter(3);
    h.release(cs.object_mut(), true);
    assert!(g.is_poisoned(cs.object()));
    g.leave(cs.object_mut());
}

#[test]
fn last_handle_deletes_once() {
    let mut ids = LockIds::new();
    let mut cs = CriticalSection::new(&mut ids);
    cs.duplicate();
    cs.duplicate();
    assert_eq!(3, cs.handle_count());
    assert!(!cs.drop_handle());
    assert!(cs.object().is_live());
    assert!(!cs.drop_handle());
    assert!(cs.object().is_live());
    assert!(cs.drop_handle());
    assert!(!cs.object().is_live());
    assert_eq!(0, cs.handle_count());
}

#[test]
fn clone_eq() {
    let mut ids = LockIds::new();
    let mut c1 = CriticalSection::new(&mut ids);
    c1.duplicate();
    assert!(c1 == c1);
    assert_eq!(2, c1.handle_count());
}

#[test]
fn separate_locks_are_unequal() {
    let mut ids = LockIds::new();
    let a = CriticalSection::new(&mut ids);
    let b = CriticalSection::new(&mut ids);
    assert!(a != b);
    let mut c = CriticalSection::with_spin_count(&mut ids, 10);
    let g = c.enter(1);
    g.leave(c.object_mut());
    assert!(a != c);
    assert!(b != c);
}

#[test]
fn spin_count_returns_previous() {
    let mut ids = LockIds::new();
    let mut cs = CriticalSection::with_spin_count(&mut ids, 4000);
    assert_eq!(4000, cs.set_spin_count(10));
    let g = cs.enter(1);
    assert_eq!(10, g.set_spin_count(cs.object_mut(), 20));
    g.leave(cs.object_mut());
    assert_eq!(20, cs.set_spin_count(0));
    let mut plain = CriticalSection::new(&mut ids);
    assert_eq!(critical_section::DEFAULT_SPIN_COUNT, plain.set_spin_count(1));
}

#[test]
fn static_initialises_lazily_with_its_spin_count() {
    let mut ids = LockIds::new();
    let mut st = CriticalStatic::with_spin_count(&mut ids, 4000);
    assert_eq!(InitState::Uninitialized, st.state());
    assert!(!st.object().is_live());
    assert_eq!(4000, st.set_spin_count(7));
    assert_eq!(InitState::Initialized, st.state());
    let r = st.get_ref();
    assert_eq!(7, r.set_spin_count(&mut st, 8));
    assert_eq!(8, st.set_spin_count(9));
}

#[test]
fn static_try_enter_sees_the_owner() {
    let mut ids = LockIds::new();
    let mut st = CriticalStatic::new(&mut ids);
    let g = st.try_enter(1).expect("free on first use");
    assert!(st.try_enter(2).is_none());
    let r = st.get_ref();
    assert!(r.try_enter(&mut st, 2).is_none());
    let again = r.try_enter(&mut st, 1).expect("the owner re-enters");
    again.leave(st.object_mut());
    g.leave(st.object_mut());
    assert!(r.try_enter(&mut st, 2).is_some());
}

#[test]
fn static_delete_and_reinit() {
    let mut ids = LockIds::new();
    let mut st = CriticalStatic::new(&mut ids);
    let r = st.get_ref();
    let g = r.enter(&mut st, 1);
    g.release(st.object_mut(), true);
    let u = r.delete(&mut st);
    assert!(!st.object().is_live());
    let r = u.init_with_spin_count(&mut st, 55);
    assert!(st.object().is_live());
    let g = r.enter(&mut st, 2);
    assert!(!g.is_poisoned(st.object()));
    assert_eq!(55, g.set_spin_count(st.object_mut(), 1));
    g.leave(st.object_mut());
    let u = st.delete();
    let r = u.init(&mut st);
    assert_eq!(critical_section::DEFAULT_SPIN_COUNT, r.set_spin_count(&mut st, 3));
    let u = st.assume_uninit();
    let _ = u;
    let _ = st.delete();
    st.init();
    assert!(st.object().is_live());
    let _ = st.delete();
    let r = st.init_with_spin_count(12);
    assert_eq!(12, r.set_spin_count(&mut st, 0));
}

#[test]
fn init_words_round_trip() {
    for s in [
        InitState::Uninitialized,
        InitState::Initializing,
        InitState::Initialized,
        InitState::Poisoned,
    ] {
        assert_eq!(Some(s), InitState::from_word(s.to_word()));
    }
    assert_eq!(0, InitState::Uninitialized.to_word());
    assert_eq!(2, InitState::Initialized.to_word());
    assert_eq!(3, InitState::Poisoned.to_word());
    assert_eq!(None, InitState::from_word(4));
}

// Two callers race on a fresh static lock: one wins the swap and initialises,
// the other spins until it sees the outcome.
#[test]
fn racing_callers_initialise_once() {
    let mut word = InitState::Uninitialized;
    let mut inits = 0;
    assert_eq!(InitPhase::Claiming, on_load(word));
    assert_eq!(InitPhase::Claiming, on_load(word));
    let first_won = word == InitState::Uninitialized;
    if first_won {
        word = InitState::Initializing;
        inits += 1;
    }
    assert_eq!(InitPhase::Running, on_swap(first_won));
    let second_won = word == InitState::Uninitialized;
    assert_eq!(InitPhase::Spinning, on_swap(second_won));
    assert_eq!(InitPhase::Spinning, on_poll(word));
    let (stored, phase) = on_init(true);
    word = stored;
    assert_eq!(InitPhase::Done, phase);
    assert_eq!(InitPhase::Done, on_poll(word));
    assert_eq!(InitPhase::Done, on_load(word));
    assert_eq!(1, inits);
}

#[test]
fn failed_initialisation_fails_the_waiters() {
    let (stored, phase) = on_init(false);
    assert_eq!(InitState::Poisoned, stored);
    assert_eq!(InitPhase::Failed, phase);
    assert_eq!(InitPhase::Failed, on_poll(stored));
    assert_eq!(InitPhase::Claiming, on_load(stored));
}

#[test]
fn release_and_drop_decisions() {
    assert!(poison_on_release(false, true));
    assert!(poison_on_release(true, false));
    assert!(!poison_on_release(false, false));
    assert!(deletes_on_drop(0));
    assert!(!deletes_on_drop(1));
    assert!(!deletes_on_drop(2));
}

#[test]
fn zeroed_object_is_not_live() {
    let z = PoisonableCriticalSection::zeroed(9);
    assert!(!z.is_live());
    assert_eq!(9, z.id());
}
