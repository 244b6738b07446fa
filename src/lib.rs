//! A recursive mutual-exclusion lock with poison tracking, in two allocation
//! disciplines: a shared, reference-counted lock and a statically allocated lock
//! that initialises itself exactly once.
//!
//! The platform's recursive exclusion object is held here as its observable
//! state (who owns it, how deep, whether it is live, its spin count), and every
//! decision the lock makes on top of it is a verified function of that state.
//! The lock types of this crate are that model: an object's identity stands
//! for its address, a thread is named by an id, and a guard is released by an
//! explicit call. A program on the platform runs its own lock types, which
//! make the platform calls and take these decisions: `poison_on_release` when
//! a guard goes, and the once-protocol steps `on_load`, `on_swap`, `on_poll`
//! and `on_init` on the atomic word. Its shared lock deletes the object when
//! the atomic decrement of the handle count leaves zero, the rule that
//! `deletes_on_drop` states.
mod common;
mod counter;
mod crit;
mod crit_static;
mod once;

pub use common::{
    apply_op, apply_ops, last_clear, lemma_poison_propagation, lemma_reentry, panicked_since,
    poison_on_release, CsModel, EnteredCritical, LockIds, LockOp, PoisonableCriticalSection,
    DEFAULT_SPIN_COUNT,
};
pub use counter::{
    counter_initial, counter_inv, counter_run, counter_step, lemma_mutual_exclusion, CounterEvent,
    CounterSystem, WorkerPhase,
};
pub use crit::{deletes_on_drop, lemma_delete_exactly_once, CriticalSection, SharedModel};
pub use crit_static::{
    lemma_ref_equivalence, CriticalStatic, CriticalStaticRef, Init, StaticModel, Uninit,
};
pub use once::{
    after_init, after_load, after_poll, after_swap, initial_system, lemma_callers_finish,
    lemma_init_exactly_once, on_init, on_load, on_poll, on_swap, swap, system_inv, system_run,
    system_step, word_of, InitEvent, InitPhase, InitState, InitSystem,
};
