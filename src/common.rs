use vstd::prelude::*;

verus! {

/// Spin count the model records for an object initialised without one. This
/// is an assumption of the model: the platform documents no value for it, and
/// a program that needs a known spin count initialises with one.
pub const DEFAULT_SPIN_COUNT: u32 = 0;

/// Hands out object identities, standing for the fresh addresses that
/// allocation gives: each identity is handed out once, and every identity
/// handed out so far is below the counter.
pub struct LockIds {
    next: u64,
}

impl View for LockIds {
    type V = u64;

    closed spec fn view(&self) -> u64 {
        self.next
    }
}

impl LockIds {
    pub fn new() -> (r: Self)
        ensures
            r@ == 0,
    {
        LockIds { next: 0 }
    }

    /// An identity that no earlier call on this value returned.
    pub fn fresh(&mut self) -> (r: u64)
        requires
            old(self)@ < u64::MAX,
        ensures
            r == old(self)@,
            final(self)@ == old(self)@ + 1,
    {
        let r = self.next;
        self.next = self.next + 1;
        r
    }
}

/// Observable state of one poisonable exclusion object.
pub struct CsModel {
    /// Identity of the object (its fixed address in a running process).
    pub id: u64,
    /// Initialised and not deleted since.
    pub live: bool,
    /// Thread that currently holds the object, if any.
    pub owner: Option<u64>,
    /// Recursion depth of the owner: number of guards it has not released.
    pub depth: nat,
    /// Set when a guard was released while its thread was unwinding.
    pub poisoned: bool,
    pub spin_count: u32,
    /// Number of platform initialisations performed on the object.
    pub inits: nat,
    /// Number of platform deletions performed on the object.
    pub deletes: nat,
}

impl CsModel {
    /// Well-formed: an object is held exactly when its depth is positive, and
    /// only a live object is held.
    pub open spec fn wf(self) -> bool {
        &&& (self.owner is None <==> self.depth == 0)
        &&& (!self.live ==> self.owner is None)
    }

    /// Thread `t` can enter without blocking: the object is free or already its own.
    pub open spec fn available_to(self, t: u64) -> bool {
        self.live && (self.owner is None || self.owner == Some(t))
    }

    /// `g` is a guard of this object, held by its owner.
    pub open spec fn holds(self, g: EnteredCritical) -> bool {
        &&& self.live
        &&& self.id == g.lock_id()
        &&& self.owner == Some(g.thread())
        &&& self.depth > 0
    }

    /// State after thread `t` enters (first entry or re-entry).
    pub open spec fn entered(self, t: u64) -> CsModel {
        CsModel { owner: Some(t), depth: self.depth + 1, ..self }
    }

    /// State after the owner releases one level; poisoned if it was unwinding.
    pub open spec fn released(self, panicking: bool) -> CsModel {
        CsModel {
            owner: if self.depth <= 1 { None } else { self.owner },
            depth: if self.depth <= 1 { 0 } else { (self.depth - 1) as nat },
            poisoned: self.poisoned || panicking,
            ..self
        }
    }

    /// State after a platform initialisation: live and free. The poison flag
    /// is not the platform's and stays as it was.
    pub open spec fn initialized(self, spin_count: u32) -> CsModel {
        CsModel {
            live: true,
            owner: None,
            depth: 0,
            spin_count,
            inits: self.inits + 1,
            ..self
        }
    }

    /// State after an explicit (re)initialisation, which also clears the poison.
    pub open spec fn reinitialized(self, spin_count: u32) -> CsModel {
        CsModel { poisoned: false, ..self.initialized(spin_count) }
    }

    /// State after a platform deletion.
    pub open spec fn deleted(self) -> CsModel {
        CsModel { live: false, owner: None, depth: 0, deletes: self.deletes + 1, ..self }
    }
}

/// The poison flag after a guard is released: set when the releasing thread is
/// unwinding from a panic, left as it was otherwise.
pub fn poison_on_release(poisoned: bool, panicking: bool) -> (r: bool)
    ensures
        r == (poisoned || panicking),
{
    if panicking {
        true
    } else {
        poisoned
    }
}

/// A platform recursive exclusion object together with its poison flag.
pub struct PoisonableCriticalSection {
    id: u64,
    live: bool,
    owner: Option<u64>,
    depth: u64,
    poisoned: bool,
    spin_count: u32,
    inits: Ghost<nat>,
    deletes: Ghost<nat>,
}

impl View for PoisonableCriticalSection {
    type V = CsModel;

    closed spec fn view(&self) -> CsModel {
        CsModel {
            id: self.id,
            live: self.live,
            owner: self.owner,
            depth: self.depth as nat,
            poisoned: self.poisoned,
            spin_count: self.spin_count,
            inits: self.inits@,
            deletes: self.deletes@,
        }
    }
}

impl PoisonableCriticalSection {
    /// Model of a zeroed object `id`.
    pub open spec fn zeroed_model(id: u64) -> CsModel {
        CsModel {
            id,
            live: false,
            owner: None,
            depth: 0,
            poisoned: false,
            spin_count: 0,
            inits: 0,
            deletes: 0,
        }
    }

    /// A zeroed object: not yet initialised.
    pub fn zeroed(id: u64) -> (r: Self)
        ensures
            r@ == Self::zeroed_model(id),
            r@.wf(),
    {
        PoisonableCriticalSection {
            id,
            live: false,
            owner: None,
            depth: 0,
            poisoned: false,
            spin_count: 0,
            inits: Ghost(0),
            deletes: Ghost(0),
        }
    }

    pub fn id(&self) -> (r: u64)
        ensures
            r == self@.id,
    {
        self.id
    }

    pub fn is_live(&self) -> (r: bool)
        ensures
            r == self@.live,
    {
        self.live
    }

    /// Initialises the platform object with the default spin count.
    pub(crate) fn init(&mut self)
        requires
            old(self)@.wf(),
            !old(self)@.live,
        ensures
            final(self)@.wf(),
            final(self)@ == old(self)@.initialized(DEFAULT_SPIN_COUNT),
    {
        self.init_with_spin_count(DEFAULT_SPIN_COUNT);
    }

    /// Initialises the platform object with `spin_count`.
    pub(crate) fn init_with_spin_count(&mut self, spin_count: u32)
        requires
            old(self)@.wf(),
            !old(self)@.live,
        ensures
            final(self)@.wf(),
            final(self)@ == old(self)@.initialized(spin_count),
    {
        self.live = true;
        self.owner = None;
        self.depth = 0;
        self.spin_count = spin_count;
        self.inits = Ghost(self.inits@ + 1);
    }

    /// Releases the platform object; nobody may hold it.
    pub(crate) fn delete(&mut self)
        requires
            old(self)@.wf(),
            old(self)@.live,
            old(self)@.owner is None,
        ensures
            final(self)@.wf(),
            final(self)@ == old(self)@.deleted(),
    {
        self.live = false;
        self.owner = None;
        self.depth = 0;
        self.deletes = Ghost(self.deletes@ + 1);
    }

    /// Enters on behalf of thread `t`, which must not be kept waiting: the
    /// object is free, or `t` holds it already (re-entry).
    pub fn enter(&mut self, t: u64) -> (g: EnteredCritical)
        requires
            old(self)@.wf(),
            old(self)@.available_to(t),
            old(self)@.depth < u64::MAX,
        ensures
            final(self)@.wf(),
            final(self)@ == old(self)@.entered(t),
            g.lock_id() == old(self)@.id,
            g.thread() == t,
            final(self)@.holds(g),
    {
        self.owner = Some(t);
        self.depth = self.depth + 1;
        EnteredCritical { lock: self.id, thread: t, on_thread: std::marker::PhantomData }
    }

    /// Enters on behalf of thread `t` if that needs no waiting; `None` when
    /// another thread holds the object, which is then left unchanged.
    pub fn try_enter(&mut self, t: u64) -> (r: Option<EnteredCritical>)
        requires
            old(self)@.wf(),
            old(self)@.live,
            old(self)@.depth < u64::MAX,
        ensures
            final(self)@.wf(),
            old(self)@.available_to(t) ==> r is Some && final(self)@ == old(self)@.entered(t),
            !old(self)@.available_to(t) ==> r is None && final(self)@ == old(self)@,
            r matches Some(g) ==> g.lock_id() == old(self)@.id && g.thread() == t
                && final(self)@.holds(g),
    {
        let free = match self.owner {
            None => true,
            Some(o) => o == t,
        };
        if free {
            Some(self.enter(t))
        } else {
            None
        }
    }

    /// Sets the spin count and returns the previous one.
    pub fn set_spin_count(&mut self, spin_count: u32) -> (r: u32)
        requires
            old(self)@.wf(),
        ensures
            final(self)@.wf(),
            r == old(self)@.spin_count,
            final(self)@ == (CsModel { spin_count, ..old(self)@ }),
    {
        let previous = self.spin_count;
        self.spin_count = spin_count;
        previous
    }

    /// Clears the poison flag without holding the object; for (re)initialisation.
    pub(crate) fn clear_poison_unsynced(&mut self)
        requires
            old(self)@.wf(),
        ensures
            final(self)@.wf(),
            final(self)@ == (CsModel { poisoned: false, ..old(self)@ }),
    {
        self.poisoned = false;
    }
}

/// Proof that the current thread holds one level of a specific exclusion
/// object. Neither copyable nor clonable: it is released exactly once.
/// A guard stays on the thread that entered: it is neither `Send` nor `Sync`.
#[derive(Debug)]
pub struct EnteredCritical {
    lock: u64,
    thread: u64,
    on_thread: std::marker::PhantomData<std::rc::Rc<()>>,
}

impl EnteredCritical {
    /// Identity of the object this guard holds.
    pub closed spec fn lock_id(self) -> u64 {
        self.lock
    }

    /// Thread that entered.
    pub closed spec fn thread(self) -> u64 {
        self.thread
    }

    /// Releases the guard on the normal path.
    pub fn leave(self, cs: &mut PoisonableCriticalSection)
        requires
            old(cs)@.wf(),
            old(cs)@.holds(self),
        ensures
            final(cs)@.wf(),
            final(cs)@ == old(cs)@.released(false),
    {
        self.release(cs, false)
    }

    /// Releases the guard; when the thread is unwinding from a panic the object
    /// is poisoned first.
    pub fn release(self, cs: &mut PoisonableCriticalSection, panicking: bool)
        requires
            old(cs)@.wf(),
            old(cs)@.holds(self),
        ensures
            final(cs)@.wf(),
            final(cs)@ == old(cs)@.released(panicking),
    {
        cs.poisoned = poison_on_release(cs.poisoned, panicking);
        if cs.depth <= 1 {
            cs.owner = None;
            cs.depth = 0;
        } else {
            cs.depth = cs.depth - 1;
        }
    }

    /// Sets the spin count of the held object and returns the previous one.
    pub fn set_spin_count(&self, cs: &mut PoisonableCriticalSection, spin_count: u32) -> (r: u32)
        requires
            old(cs)@.wf(),
            old(cs)@.holds(*self),
        ensures
            final(cs)@.wf(),
            r == old(cs)@.spin_count,
            final(cs)@ == (CsModel { spin_count, ..old(cs)@ }),
    {
        cs.set_spin_count(spin_count)
    }

    /// Whether a guard of the object was released during a panic since the
    /// poison was last cleared.
    pub fn is_poisoned(&self, cs: &PoisonableCriticalSection) -> (r: bool)
        requires
            cs@.holds(*self),
        ensures
            r == cs@.poisoned,
    {
        cs.poisoned
    }

    /// Clears the poison flag of the held object.
    pub fn clear_poison(&self, cs: &mut PoisonableCriticalSection)
        requires
            old(cs)@.wf(),
            old(cs)@.holds(*self),
        ensures
            final(cs)@.wf(),
            final(cs)@ == (CsModel { poisoned: false, ..old(cs)@ }),
    {
        cs.poisoned = false;
    }
}

/// One operation on an exclusion object, as seen by its model.
pub enum LockOp {
    /// Thread `t` enters (or re-enters).
    Enter(u64),
    /// The owner releases one level, unwinding from a panic or not.
    Release(bool),
    /// The owner clears the poison flag.
    ClearPoison,
}

/// The object after one operation.
pub open spec fn apply_op(m: CsModel, op: LockOp) -> CsModel {
    match op {
        LockOp::Enter(t) => m.entered(t),
        LockOp::Release(panicking) => m.released(panicking),
        LockOp::ClearPoison => CsModel { poisoned: false, ..m },
    }
}

/// The object after the operations, in order.
pub open spec fn apply_ops(m: CsModel, ops: Seq<LockOp>) -> CsModel
    decreases ops.len(),
{
    if ops.len() == 0 {
        m
    } else {
        apply_ops(apply_op(m, ops[0]), ops.drop_first())
    }
}

/// Index of the last poison clearing among the operations, or -1.
pub open spec fn last_clear(ops: Seq<LockOp>) -> int
    decreases ops.len(),
{
    if ops.len() == 0 {
        -1
    } else if ops.last() is ClearPoison {
        ops.len() - 1
    } else {
        last_clear(ops.drop_last())
    }
}

/// Some release among the operations from index `from` on happened while
/// its thread was unwinding.
pub open spec fn panicked_since(ops: Seq<LockOp>, from: int) -> bool {
    exists|i: int| 0 <= i && from <= i < ops.len() && ops[i] == LockOp::Release(true)
}

/// A thread that holds an object enters it again without waiting, and
/// releasing that inner level gives back the object as it was.
pub proof fn lemma_reentry(m: CsModel, g: EnteredCritical)
    requires
        m.holds(g),
    ensures
        m.available_to(g.thread()),
        m.entered(g.thread()).holds(g),
        m.entered(g.thread()).depth == m.depth + 1,
        m.entered(g.thread()).released(false) == m,
{
}

proof fn lemma_apply_ops_last(m: CsModel, ops: Seq<LockOp>)
    requires
        ops.len() > 0,
    ensures
        apply_ops(m, ops) == apply_op(apply_ops(m, ops.drop_last()), ops.last()),
    decreases ops.len(),
{
    if ops.len() > 1 {
        let next = apply_op(m, ops[0]);
        lemma_apply_ops_last(next, ops.drop_first());
        assert(ops.drop_first().drop_last() =~= ops.drop_last().drop_first());
        assert(ops.drop_first().last() == ops.last());
        assert(ops.drop_last()[0] == ops[0]);
        assert(apply_ops(m, ops.drop_last()) == apply_ops(next, ops.drop_last().drop_first()));
    } else {
        assert(ops.drop_first().len() == 0);
        assert(ops.drop_last().len() == 0);
        assert(ops.last() == ops[0]);
        assert(apply_ops(apply_op(m, ops[0]), ops.drop_first()) == apply_op(m, ops[0]));
    }
}

proof fn lemma_last_clear_range(ops: Seq<LockOp>)
    ensures
        -1 <= last_clear(ops) < ops.len(),
    decreases ops.len(),
{
    if ops.len() > 0 {
        lemma_last_clear_range(ops.drop_last());
    }
}

/// After any operations the object is poisoned exactly when a guard was
/// released during a panic after the last clearing of the poison (or, with no
/// clearing, when it was poisoned already or such a release happened at all):
/// a panic while held poisons it for every later holder, clearing resets it,
/// and it stays clear until the next panic while held.
pub proof fn lemma_poison_propagation(m: CsModel, ops: Seq<LockOp>)
    ensures
        apply_ops(m, ops).poisoned == ((last_clear(ops) < 0 && m.poisoned) || panicked_since(
            ops,
            last_clear(ops) + 1,
        )),
    decreases ops.len(),
{
    if ops.len() > 0 {
        let init = ops.drop_last();
        lemma_apply_ops_last(m, ops);
        lemma_poison_propagation(m, init);
        lemma_last_clear_range(init);
        let c = last_clear(ops);
        match ops.last() {
            LockOp::ClearPoison => {
                assert(!panicked_since(ops, c + 1));
            },
            LockOp::Release(p) => {
                assert(c == last_clear(init));
                if p {
                    assert(ops[ops.len() - 1] == LockOp::Release(true));
                } else {
                    if panicked_since(ops, c + 1) {
                        let i = choose|i: int| 0 <= i && c + 1 <= i < ops.len() && ops[i] == LockOp::Release(true);
                        assert(i != ops.len() - 1);
                        assert(init[i] == LockOp::Release(true));
                    }
                    if panicked_since(init, c + 1) {
                        let i = choose|i: int| 0 <= i && c + 1 <= i < init.len() && init[i] == LockOp::Release(true);
                        assert(ops[i] == LockOp::Release(true));
                    }
                }
            },
            LockOp::Enter(t) => {
                assert(c == last_clear(init));
                if panicked_since(ops, c + 1) {
                    let i = choose|i: int| 0 <= i && c + 1 <= i < ops.len() && ops[i] == LockOp::Release(true);
                    assert(i != ops.len() - 1);
                    assert(init[i] == LockOp::Release(true));
                }
                if panicked_since(init, c + 1) {
                    let i = choose|i: int| 0 <= i && c + 1 <= i < init.len() && init[i] == LockOp::Release(true);
                    assert(ops[i] == LockOp::Release(true));
                }
            },
        }
    }
}

} // verus!
