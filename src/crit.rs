use vstd::prelude::*;
use crate::common::{CsModel, EnteredCritical, LockIds, PoisonableCriticalSection, DEFAULT_SPIN_COUNT};

verus! {

/// Observable state of a shared lock: its exclusion object and the number of
/// handles that own it.
pub struct SharedModel {
    pub handles: nat,
    pub object: CsModel,
}

impl SharedModel {
    /// Some handle owns the object, which is live and well-formed.
    pub open spec fn alive(self) -> bool {
        self.handles >= 1 && self.object.live && self.object.wf()
    }

    /// State after one more handle is made.
    pub open spec fn duplicated(self) -> SharedModel {
        SharedModel { handles: self.handles + 1, ..self }
    }

    /// State after one handle is dropped: its decrement of the count is one
    /// atomic step, and the handle whose decrement leaves zero deletes the object.
    pub open spec fn dropped(self) -> SharedModel {
        let remaining = (self.handles - 1) as nat;
        SharedModel {
            handles: remaining,
            object: if remaining == 0 { self.object.deleted() } else { self.object },
        }
    }

    /// State after `j` handles are dropped, one after another.
    pub open spec fn dropped_times(self, j: nat) -> SharedModel
        decreases j,
    {
        if j == 0 {
            self
        } else {
            self.dropped().dropped_times((j - 1) as nat)
        }
    }

    /// State after `i` more handles are made.
    pub open spec fn duplicated_times(self, i: nat) -> SharedModel
        decreases i,
    {
        if i == 0 {
            self
        } else {
            self.duplicated().duplicated_times((i - 1) as nat)
        }
    }

    /// State after the object alone changes to `object`.
    pub open spec fn with_object(self, object: CsModel) -> SharedModel {
        SharedModel { object, ..self }
    }
}

/// Whether a dropped handle deletes the object, given the count of owning
/// handles that its own atomic decrement left. Concurrent drops are ordered by
/// those decrements, so exactly one of them leaves zero; no non-owning
/// reference exists to be left dangling.
pub fn deletes_on_drop(remaining: usize) -> (r: bool)
    ensures
        r == (remaining == 0),
{
    remaining == 0
}

/// A lock whose exclusion object is shared by any number of owning handles;
/// the last handle to go deletes it.
pub struct CriticalSection {
    inner: PoisonableCriticalSection,
    handles: usize,
}

impl View for CriticalSection {
    type V = SharedModel;

    closed spec fn view(&self) -> SharedModel {
        SharedModel { handles: self.handles as nat, object: self.inner@ }
    }
}

impl PartialEq for CriticalSection {
    /// Identity: the same object, whatever its state. Identities come from
    /// `LockIds`, so two locks made from one `LockIds` are never equal.
    fn eq(&self, other: &CriticalSection) -> (r: bool) {
        self.inner.id() == other.inner.id()
    }
}

impl Eq for CriticalSection {}

impl vstd::std_specs::cmp::PartialEqSpecImpl for CriticalSection {
    open spec fn obeys_eq_spec() -> bool {
        true
    }

    open spec fn eq_spec(&self, other: &CriticalSection) -> bool {
        self@.object.id == other@.object.id
    }
}

impl CriticalSection {
    /// A lock on a freshly allocated object, initialised with the default
    /// spin count, owned by one handle.
    pub fn new(ids: &mut LockIds) -> (r: Self)
        requires
            old(ids)@ < u64::MAX,
        ensures
            final(ids)@ == old(ids)@ + 1,
            r@ == (SharedModel {
                handles: 1,
                object: PoisonableCriticalSection::zeroed_model(old(ids)@).initialized(
                    DEFAULT_SPIN_COUNT,
                ),
            }),
            r@.alive(),
    {
        let mut inner = PoisonableCriticalSection::zeroed(ids.fresh());
        inner.init();
        CriticalSection { inner, handles: 1 }
    }

    /// A lock on a freshly allocated object, initialised with `spin_count`,
    /// owned by one handle.
    pub fn with_spin_count(ids: &mut LockIds, spin_count: u32) -> (r: Self)
        requires
            old(ids)@ < u64::MAX,
        ensures
            final(ids)@ == old(ids)@ + 1,
            r@ == (SharedModel {
                handles: 1,
                object: PoisonableCriticalSection::zeroed_model(old(ids)@).initialized(spin_count),
            }),
            r@.alive(),
    {
        let mut inner = PoisonableCriticalSection::zeroed(ids.fresh());
        inner.init_with_spin_count(spin_count);
        CriticalSection { inner, handles: 1 }
    }

    /// Makes one more owning handle.
    pub fn duplicate(&mut self)
        requires
            old(self)@.alive(),
            old(self)@.handles < usize::MAX,
        ensures
            final(self)@.alive(),
            final(self)@ == old(self)@.duplicated(),
    {
        self.handles = self.handles + 1;
    }

    /// Drops one owning handle: decrements the count, and deletes the object
    /// when that leaves zero; nobody can hold it then, since a guard does not
    /// outlive its handle. Returns whether the object was deleted.
    pub fn drop_handle(&mut self) -> (deleted: bool)
        requires
            old(self)@.alive(),
            old(self)@.handles == 1 ==> old(self)@.object.owner is None,
        ensures
            final(self)@ == old(self)@.dropped(),
            final(self)@.object.wf(),
            deleted == (old(self)@.handles == 1),
    {
        self.handles = self.handles - 1;
        let last = deletes_on_drop(self.handles);
        if last {
            self.inner.delete();
        }
        last
    }

    /// Enters on behalf of thread `t`, which the object must not keep waiting.
    pub fn enter(&mut self, t: u64) -> (g: EnteredCritical)
        requires
            old(self)@.alive(),
            old(self)@.object.available_to(t),
            old(self)@.object.depth < u64::MAX,
        ensures
            final(self)@.alive(),
            final(self)@ == old(self)@.with_object(old(self)@.object.entered(t)),
            g.lock_id() == old(self)@.object.id,
            g.thread() == t,
            final(self)@.object.holds(g),
    {
        self.inner.enter(t)
    }

    /// Enters on behalf of thread `t` if that needs no waiting.
    pub fn try_enter(&mut self, t: u64) -> (r: Option<EnteredCritical>)
        requires
            old(self)@.alive(),
            old(self)@.object.depth < u64::MAX,
        ensures
            final(self)@.alive(),
            old(self)@.object.available_to(t) ==> r is Some && final(self)@ == old(
                self,
            )@.with_object(old(self)@.object.entered(t)),
            !old(self)@.object.available_to(t) ==> r is None && final(self)@ == old(self)@,
            r matches Some(g) ==> g.lock_id() == old(self)@.object.id && g.thread() == t
                && final(self)@.object.holds(g),
    {
        self.inner.try_enter(t)
    }

    /// Sets the spin count and returns the previous one.
    pub fn set_spin_count(&mut self, spin_count: u32) -> (r: u32)
        requires
            old(self)@.alive(),
        ensures
            final(self)@.alive(),
            r == old(self)@.object.spin_count,
            final(self)@ == old(self)@.with_object(CsModel { spin_count, ..old(self)@.object }),
    {
        self.inner.set_spin_count(spin_count)
    }

    /// Number of owning handles.
    pub fn handle_count(&self) -> (r: usize)
        ensures
            r == self@.handles,
    {
        self.handles
    }

    /// The exclusion object, for the operations of its guards.
    pub fn object(&self) -> (r: &PoisonableCriticalSection)
        ensures
            r@ == self@.object,
    {
        &self.inner
    }

    /// The exclusion object, for the operations of its guards.
    pub fn object_mut(&mut self) -> (r: &mut PoisonableCriticalSection)
        ensures
            r@ == old(self)@.object,
            final(self)@ == old(self)@.with_object(final(r)@),
    {
        &mut self.inner
    }
}

proof fn lemma_drops(m: SharedModel, j: nat)
    requires
        m.alive(),
        m.object.owner is None,
        j <= m.handles,
    ensures
        m.dropped_times(j).handles == m.handles - j,
        m.dropped_times(j).object.deletes == m.object.deletes + (if j == m.handles {
            1nat
        } else {
            0nat
        }),
        m.dropped_times(j).object.live == (j < m.handles),
    decreases j,
{
    if j > 0 {
        if m.handles == 1 {
            assert(m.dropped().dropped_times((j - 1) as nat) == m.dropped());
        } else {
            lemma_drops(m.dropped(), (j - 1) as nat);
        }
    }
}

proof fn lemma_duplicates(m: SharedModel, i: nat)
    ensures
        m.duplicated_times(i) == (SharedModel { handles: m.handles + i, ..m }),
    decreases i,
{
    if i > 0 {
        lemma_duplicates(m.duplicated(), (i - 1) as nat);
    }
}

/// A live lock that nobody holds, duplicated into `k` handles in all, keeps its
/// object through the first `k - 1` drops and deletes it exactly once, at the
/// `k`-th.
pub proof fn lemma_delete_exactly_once(m: SharedModel, k: nat, j: nat)
    requires
        m.alive(),
        m.handles == 1,
        m.object.owner is None,
        k >= 1,
        j <= k,
    ensures
        m.duplicated_times((k - 1) as nat).handles == k,
        m.duplicated_times((k - 1) as nat).dropped_times(j).object.deletes == m.object.deletes + (
        if j == k {
            1nat
        } else {
            0nat
        }),
        m.duplicated_times((k - 1) as nat).dropped_times(j).object.live == (j < k),
{
    lemma_duplicates(m, (k - 1) as nat);
    lemma_drops(m.duplicated_times((k - 1) as nat), j);
}

} // verus!
