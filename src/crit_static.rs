use vstd::prelude::*;
use crate::common::{CsModel, EnteredCritical, LockIds, PoisonableCriticalSection, DEFAULT_SPIN_COUNT};
use crate::once::{on_init, on_load, on_swap, InitPhase, InitState};

verus! {

/// Observable state of a static lock.
pub struct StaticModel {
    /// Spin count the lazy initialisation uses; fixed at construction.
    pub init_spin_count: Option<u32>,
    /// The initialisation word.
    pub state: InitState,
    /// The exclusion object with static storage.
    pub object: CsModel,
}

impl StaticModel {
    /// Spin count the lazy initialisation gives the object.
    pub open spec fn configured_spin_count(self) -> u32 {
        match self.init_spin_count {
            Some(n) => n,
            None => DEFAULT_SPIN_COUNT,
        }
    }

    /// The lock can be used by the lazy path without spinning or failing: the
    /// object is well-formed, and the word is UNINITIALIZED over a zeroed
    /// object or INITIALIZED over a live one. A word left INITIALIZING by a
    /// racing caller is the once-protocol's business (`InitSystem`).
    pub open spec fn usable(self) -> bool {
        self.object.wf() && match self.state {
            InitState::Uninitialized => !self.object.live,
            InitState::Initialized => self.object.live,
            _ => false,
        }
    }

    /// State after the lazy initialisation has been forced.
    pub open spec fn forced(self) -> StaticModel {
        if self.state == InitState::Uninitialized {
            StaticModel {
                state: InitState::Initialized,
                object: self.object.initialized(self.configured_spin_count()),
                ..self
            }
        } else {
            self
        }
    }

    /// State after the object alone changes to `object`.
    pub open spec fn with_object(self, object: CsModel) -> StaticModel {
        StaticModel { object, ..self }
    }
}

/// A lock meant for static storage: it initialises its exclusion object on
/// first use, once, however many callers race for it.
pub struct CriticalStatic {
    init_spin_count: Option<u32>,
    init: InitState,
    inner: PoisonableCriticalSection,
}

impl View for CriticalStatic {
    type V = StaticModel;

    closed spec fn view(&self) -> StaticModel {
        StaticModel { init_spin_count: self.init_spin_count, state: self.init, object: self.inner@ }
    }
}

/// Marks a reference to a static lock known to be initialised.
#[derive(Clone, Copy)]
pub struct Init;

/// Marks the one reference allowed to initialise or delete a static lock's object.
pub struct Uninit;

/// A thin reference to the object of the static lock `lock_id`. With `Init`
/// it is copyable and skips the initialisation check; with `Uninit` it cannot
/// be duplicated, since it grants the right to initialise.
#[derive(Clone, Copy)]
pub struct CriticalStaticRef<State> {
    lock: u64,
    state: State,
}

impl<State> CriticalStaticRef<State> {
    /// Identity of the object referred to.
    pub closed spec fn lock_id(self) -> u64 {
        self.lock
    }
}

impl CriticalStatic {
    /// A lock on a fresh object, initialised with the default spin count on
    /// first use.
    pub fn new(ids: &mut LockIds) -> (r: Self)
        requires
            old(ids)@ < u64::MAX,
        ensures
            final(ids)@ == old(ids)@ + 1,
            r@.init_spin_count is None,
            r@.state == InitState::Uninitialized,
            r@.object == PoisonableCriticalSection::zeroed_model(old(ids)@),
            r@.usable(),
    {
        CriticalStatic {
            init_spin_count: None,
            init: InitState::Uninitialized,
            inner: PoisonableCriticalSection::zeroed(ids.fresh()),
        }
    }

    /// A lock on a fresh object, initialised with `spin_count` on first use.
    pub fn with_spin_count(ids: &mut LockIds, spin_count: u32) -> (r: Self)
        requires
            old(ids)@ < u64::MAX,
        ensures
            final(ids)@ == old(ids)@ + 1,
            r@.init_spin_count == Some(spin_count),
            r@.state == InitState::Uninitialized,
            r@.object == PoisonableCriticalSection::zeroed_model(old(ids)@),
            r@.usable(),
    {
        CriticalStatic {
            init_spin_count: Some(spin_count),
            init: InitState::Uninitialized,
            inner: PoisonableCriticalSection::zeroed(ids.fresh()),
        }
    }

    /// Forces the lazy initialisation, stepping through the once-protocol as
    /// its only caller: load, swap, platform initialisation, store.
    fn init_once(&mut self)
        requires
            old(self)@.object.wf(),
            old(self)@.usable(),
        ensures
            final(self)@.object.wf(),
            final(self)@ == old(self)@.forced(),
    {
        if on_load(self.init) == InitPhase::Done {
            return;
        }
        let won = self.init == InitState::Uninitialized;
        if won {
            self.init = InitState::Initializing;
        }
        match on_swap(won) {
            InitPhase::Running => {
                match self.init_spin_count {
                    Some(n) => self.inner.init_with_spin_count(n),
                    None => self.inner.init(),
                }
                let (stored, _) = on_init(true);
                self.init = stored;
            },
            _ => {
                // Losing the swap means that another caller is initialising,
                // which `usable` rules out for a sole caller.
                assert(false);
            },
        }
    }

    /// Enters on behalf of thread `t`, initialising the object first if needed.
    pub fn enter(&mut self, t: u64) -> (g: EnteredCritical)
        requires
            old(self)@.object.wf(),
            old(self)@.usable(),
            old(self)@.forced().object.available_to(t),
            old(self)@.object.depth < u64::MAX,
        ensures
            final(self)@.object.wf(),
            final(self)@ == old(self)@.forced().with_object(old(self)@.forced().object.entered(t)),
            g.lock_id() == old(self)@.object.id,
            g.thread() == t,
            final(self)@.object.holds(g),
    {
        self.init_once();
        self.inner.enter(t)
    }

    /// Enters on behalf of thread `t` if that needs no waiting, initialising
    /// the object first if needed.
    pub fn try_enter(&mut self, t: u64) -> (r: Option<EnteredCritical>)
        requires
            old(self)@.object.wf(),
            old(self)@.usable(),
            old(self)@.object.depth < u64::MAX,
        ensures
            final(self)@.object.wf(),
            old(self)@.forced().object.available_to(t) ==> r is Some && final(self)@ == old(
                self,
            )@.forced().with_object(old(self)@.forced().object.entered(t)),
            !old(self)@.forced().object.available_to(t) ==> r is None && final(self)@ == old(
                self,
            )@.forced(),
            r matches Some(g) ==> g.lock_id() == old(self)@.object.id && g.thread() == t
                && final(self)@.object.holds(g),
    {
        self.init_once();
        self.inner.try_enter(t)
    }

    /// Sets the spin count, initialising the object first if needed, and
    /// returns the previous one.
    pub fn set_spin_count(&mut self, spin_count: u32) -> (r: u32)
        requires
            old(self)@.object.wf(),
            old(self)@.usable(),
        ensures
            final(self)@.object.wf(),
            r == old(self)@.forced().object.spin_count,
            final(self)@ == old(self)@.forced().with_object(
                CsModel { spin_count, ..old(self)@.forced().object },
            ),
    {
        self.init_once();
        self.inner.set_spin_count(spin_count)
    }

    /// Forces the initialisation once and returns a reference that skips the
    /// check from then on.
    pub fn get_ref(&mut self) -> (r: CriticalStaticRef<Init>)
        requires
            old(self)@.object.wf(),
            old(self)@.usable(),
        ensures
            final(self)@.object.wf(),
            final(self)@ == old(self)@.forced(),
            r.lock_id() == old(self)@.object.id,
    {
        self.init_once();
        CriticalStaticRef { lock: self.inner.id(), state: Init }
    }

    /// The reference that may initialise the object; the caller vouches that
    /// the object is not initialised.
    pub fn assume_uninit(&self) -> (r: CriticalStaticRef<Uninit>)
        ensures
            r.lock_id() == self@.object.id,
    {
        CriticalStaticRef { lock: self.inner.id(), state: Uninit }
    }

    /// Deletes the platform object, which nobody may hold or use until it is
    /// initialised again through the returned reference.
    pub fn delete(&mut self) -> (r: CriticalStaticRef<Uninit>)
        requires
            old(self)@.object.wf(),
            old(self)@.object.live,
            old(self)@.object.owner is None,
        ensures
            final(self)@.object.wf(),
            final(self)@ == old(self)@.with_object(old(self)@.object.deleted()),
            r.lock_id() == old(self)@.object.id,
    {
        self.inner.delete();
        self.assume_uninit()
    }

    /// Initialises the platform object with the default spin count and clears
    /// the poison flag, leaving the initialisation word as it is.
    pub fn init(&mut self)
        requires
            old(self)@.object.wf(),
            !old(self)@.object.live,
        ensures
            final(self)@.object.wf(),
            final(self)@ == old(self)@.with_object(old(self)@.object.reinitialized(DEFAULT_SPIN_COUNT)),
    {
        self.inner.clear_poison_unsynced();
        self.inner.init();
    }

    /// Initialises a deleted platform object again with `spin_count`, clears
    /// the poison flag and returns a reference that skips the check.
    pub fn init_with_spin_count(&mut self, spin_count: u32) -> (r: CriticalStaticRef<Init>)
        requires
            old(self)@.object.wf(),
            old(self)@.state == InitState::Initialized,
            !old(self)@.object.live,
        ensures
            final(self)@.object.wf(),
            final(self)@ == old(self)@.with_object(old(self)@.object.reinitialized(spin_count)),
            r.lock_id() == old(self)@.object.id,
    {
        self.inner.clear_poison_unsynced();
        self.inner.init_with_spin_count(spin_count);
        self.get_ref()
    }

    /// The initialisation word.
    pub fn state(&self) -> (r: InitState)
        ensures
            r == self@.state,
    {
        self.init
    }

    /// The exclusion object, for the operations of its guards.
    pub fn object(&self) -> (r: &PoisonableCriticalSection)
        ensures
            r@ == self@.object,
    {
        &self.inner
    }

    /// The exclusion object, for the operations of its guards.
    pub fn object_mut(&mut self) -> (r: &mut PoisonableCriticalSection)
        ensures
            r@ == old(self)@.object,
            final(self)@ == old(self)@.with_object(final(r)@),
    {
        &mut self.inner
    }
}

impl CriticalStaticRef<Uninit> {
    /// Initialises the referred object with the default spin count and clears
    /// its poison flag, whatever the flag was.
    pub fn init(self, cs: &mut CriticalStatic) -> (r: CriticalStaticRef<Init>)
        requires
            old(cs)@.object.wf(),
            old(cs)@.object.id == self.lock_id(),
            !old(cs)@.object.live,
        ensures
            final(cs)@.object.wf(),
            final(cs)@ == old(cs)@.with_object(old(cs)@.object.reinitialized(DEFAULT_SPIN_COUNT)),
            r.lock_id() == self.lock_id(),
    {
        cs.init();
        CriticalStaticRef { lock: self.lock, state: Init }
    }

    /// Initialises the referred object with `spin_count` and clears its poison flag.
    pub fn init_with_spin_count(self, cs: &mut CriticalStatic, spin_count: u32) -> (r:
        CriticalStaticRef<Init>)
        requires
            old(cs)@.object.wf(),
            old(cs)@.object.id == self.lock_id(),
            !old(cs)@.object.live,
        ensures
            final(cs)@.object.wf(),
            final(cs)@ == old(cs)@.with_object(old(cs)@.object.reinitialized(spin_count)),
            r.lock_id() == self.lock_id(),
    {
        cs.inner.clear_poison_unsynced();
        cs.inner.init_with_spin_count(spin_count);
        CriticalStaticRef { lock: self.lock, state: Init }
    }
}

impl CriticalStaticRef<Init> {
    /// Enters on behalf of thread `t`, with no initialisation check.
    pub fn enter(&self, cs: &mut CriticalStatic, t: u64) -> (g: EnteredCritical)
        requires
            old(cs)@.object.wf(),
            old(cs)@.object.id == self.lock_id(),
            old(cs)@.object.available_to(t),
            old(cs)@.object.depth < u64::MAX,
        ensures
            final(cs)@.object.wf(),
            final(cs)@ == old(cs)@.with_object(old(cs)@.object.entered(t)),
            g.lock_id() == self.lock_id(),
            g.thread() == t,
            final(cs)@.object.holds(g),
    {
        cs.inner.enter(t)
    }

    /// Enters on behalf of thread `t` if that needs no waiting, with no
    /// initialisation check.
    pub fn try_enter(&self, cs: &mut CriticalStatic, t: u64) -> (r: Option<EnteredCritical>)
        requires
            old(cs)@.object.wf(),
            old(cs)@.object.id == self.lock_id(),
            old(cs)@.object.live,
            old(cs)@.object.depth < u64::MAX,
        ensures
            final(cs)@.object.wf(),
            old(cs)@.object.available_to(t) ==> r is Some && final(cs)@ == old(cs)@.with_object(
                old(cs)@.object.entered(t),
            ),
            !old(cs)@.object.available_to(t) ==> r is None && final(cs)@ == old(cs)@,
            r matches Some(g) ==> g.lock_id() == self.lock_id() && g.thread() == t
                && final(cs)@.object.holds(g),
    {
        cs.inner.try_enter(t)
    }

    /// Sets the spin count and returns the previous one, with no
    /// initialisation check.
    pub fn set_spin_count(&self, cs: &mut CriticalStatic, spin_count: u32) -> (r: u32)
        requires
            old(cs)@.object.wf(),
            old(cs)@.object.id == self.lock_id(),
        ensures
            final(cs)@.object.wf(),
            r == old(cs)@.object.spin_count,
            final(cs)@ == old(cs)@.with_object(CsModel { spin_count, ..old(cs)@.object }),
    {
        cs.inner.set_spin_count(spin_count)
    }

    /// Deletes the referred object, which nobody may hold or use until it is
    /// initialised again through the returned reference.
    pub fn delete(self, cs: &mut CriticalStatic) -> (r: CriticalStaticRef<Uninit>)
        requires
            old(cs)@.object.wf(),
            old(cs)@.object.id == self.lock_id(),
            old(cs)@.object.live,
            old(cs)@.object.owner is None,
        ensures
            final(cs)@.object.wf(),
            final(cs)@ == old(cs)@.with_object(old(cs)@.object.deleted()),
            r.lock_id() == self.lock_id(),
    {
        cs.inner.delete();
        CriticalStaticRef { lock: self.lock, state: Uninit }
    }
}

/// On an initialised static lock the lazy initialisation is a no-op, so
/// entering, trying to enter, setting the spin count and forcing the
/// initialisation through the lock change it exactly as the same operations
/// through an `Init` reference do; guards from either path release the same
/// object, so exclusion and poisoning are observed alike.
pub proof fn lemma_ref_equivalence(s: StaticModel, t: u64, spin_count: u32)
    requires
        s.state == InitState::Initialized,
    ensures
        s.forced() == s,
        s.forced().with_object(s.forced().object.entered(t)) == s.with_object(
            s.object.entered(t),
        ),
        s.forced().object.available_to(t) == s.object.available_to(t),
        s.forced().with_object(CsModel { spin_count, ..s.forced().object }) == s.with_object(
            CsModel { spin_count, ..s.object },
        ),
        s.forced().object.spin_count == s.object.spin_count,
{
}

} // verus!
