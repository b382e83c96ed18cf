//! The cell pool: two stacks of cell indices, one for the cells that are free
//! to take a charge and one for the cells that hold one.
//!
//! An index that was handed out by one of the stacks is held by the caller
//! until it is pushed back onto one of them. The pool itself only guards its
//! capacity; that no index is lost or doubled is a property of callers that
//! push back exactly what they hold, stated and proved at the end of this file.

use vstd::prelude::*;
use crate::N_CELLS;

verus! {

/// What a pool holds: both stacks, bottom first, so that the last element of
/// each sequence is the one handed out next.
#[verifier::ext_equal]
pub struct PoolState {
    pub free: Seq<u32>,
    pub charged: Seq<u32>,
}

impl PoolState {
    /// The pool of a new planet: every cell is free, and cell 0 is on top.
    pub open spec fn initial() -> PoolState {
        PoolState {
            free: Seq::new(N_CELLS as nat, |i: int| (N_CELLS - 1 - i) as u32),
            charged: Seq::empty(),
        }
    }

    /// The index that the free stack hands out next.
    pub open spec fn top_free(self) -> Option<u32> {
        if self.free.len() > 0 {
            Some(self.free.last())
        } else {
            None
        }
    }

    /// The index that the charged stack hands out next.
    pub open spec fn top_charged(self) -> Option<u32> {
        if self.charged.len() > 0 {
            Some(self.charged.last())
        } else {
            None
        }
    }

    /// The pool after the free stack handed out its top, if it had one.
    pub open spec fn acquire_free(self) -> PoolState {
        if self.free.len() > 0 {
            PoolState { free: self.free.drop_last(), charged: self.charged }
        } else {
            self
        }
    }

    /// The pool after the charged stack handed out its top, if it had one.
    pub open spec fn acquire_charged(self) -> PoolState {
        if self.charged.len() > 0 {
            PoolState { free: self.free, charged: self.charged.drop_last() }
        } else {
            self
        }
    }

    /// The pool after `index` was offered to the free stack: a full stack
    /// takes nothing.
    pub open spec fn release_free(self, index: u32) -> PoolState {
        if self.free.len() < N_CELLS {
            PoolState { free: self.free.push(index), charged: self.charged }
        } else {
            self
        }
    }

    /// The pool after `index` was offered to the charged stack: a full stack
    /// takes nothing.
    pub open spec fn release_charged(self, index: u32) -> PoolState {
        if self.charged.len() < N_CELLS {
            PoolState { free: self.free, charged: self.charged.push(index) }
        } else {
            self
        }
    }

    /// `index` is a cell of the planet that is on neither stack: some caller
    /// holds it.
    pub open spec fn holds(self, index: u32) -> bool {
        &&& index < N_CELLS
        &&& !self.free.contains(index)
        &&& !self.charged.contains(index)
    }

    /// The bookkeeping is sound: only cells of the planet are listed, none of
    /// them twice.
    pub open spec fn wf(self) -> bool {
        &&& self.free.no_duplicates()
        &&& self.charged.no_duplicates()
        &&& forall|i: int| 0 <= i < self.free.len() ==> self.free[i] < N_CELLS
        &&& forall|i: int| 0 <= i < self.charged.len() ==> self.charged[i] < N_CELLS
        &&& forall|i: int, j: int|
            0 <= i < self.free.len() && 0 <= j < self.charged.len() ==> self.free[i]
                != self.charged[j]
    }

    /// Every cell of the planet is on one of the stacks: none is held.
    pub open spec fn at_rest(self) -> bool {
        self.free.len() + self.charged.len() == N_CELLS
    }

    /// A caller may make this call: it gives back only a cell that it holds.
    pub open spec fn permits(self, op: PoolOp) -> bool {
        match op {
            PoolOp::AcquireFree | PoolOp::AcquireCharged => true,
            PoolOp::ReleaseFree(index) | PoolOp::ReleaseCharged(index) => self.holds(index),
        }
    }

    /// The pool after one call.
    pub open spec fn apply(self, op: PoolOp) -> PoolState {
        match op {
            PoolOp::AcquireFree => self.acquire_free(),
            PoolOp::AcquireCharged => self.acquire_charged(),
            PoolOp::ReleaseFree(index) => self.release_free(index),
            PoolOp::ReleaseCharged(index) => self.release_charged(index),
        }
    }

    /// The pool after a sequence of calls, the first of them first.
    pub open spec fn run(self, ops: Seq<PoolOp>) -> PoolState
        decreases ops.len(),
    {
        if ops.len() == 0 {
            self
        } else {
            self.run(ops.drop_last()).apply(ops.last())
        }
    }

    /// Each call of the sequence is one that the pool permits when it is made.
    pub open spec fn permits_all(self, ops: Seq<PoolOp>) -> bool
        decreases ops.len(),
    {
        ops.len() == 0 || (self.permits_all(ops.drop_last()) && self.run(ops.drop_last()).permits(
            ops.last(),
        ))
    }

    /// The pool can be reached from that of a new planet by permitted calls.
    pub open spec fn reachable(self) -> bool {
        exists|ops: Seq<PoolOp>| #[trigger]
            PoolState::initial().permits_all(ops) && PoolState::initial().run(ops) == self
    }
}

/// A call on the pool, as data: what is taken from a stack or given to it.
pub enum PoolOp {
    AcquireFree,
    AcquireCharged,
    ReleaseFree(u32),
    ReleaseCharged(u32),
}

/// The pool of one planet.
pub struct CellPool {
    free: Vec<u32>,
    charged: Vec<u32>,
}

impl View for CellPool {
    type V = PoolState;

    closed spec fn view(&self) -> PoolState {
        PoolState { free: self.free@, charged: self.charged@ }
    }
}

impl CellPool {
    /// A pool in its initial state.
    pub fn new() -> (pool: CellPool)
        ensures
            pool@ == PoolState::initial(),
    {
        let mut pool = CellPool { free: Vec::new(), charged: Vec::new() };
        initialize_free_cell_stack(&mut pool);
        pool
    }

    /// The free stack, bottom first.
    pub fn free_cells(&self) -> (cells: &Vec<u32>)
        ensures
            cells@ == self@.free,
    {
        &self.free
    }

    /// The charged stack, bottom first.
    pub fn charged_cells(&self) -> (cells: &Vec<u32>)
        ensures
            cells@ == self@.charged,
    {
        &self.charged
    }
}

/// Resets the pool: all cells free, none charged. The indices are stacked so
/// that they are handed out in increasing order.
pub fn initialize_free_cell_stack(pool: &mut CellPool)
    ensures
        final(pool)@ == PoolState::initial(),
{
    pool.free.clear();
    let mut i: usize = 0;
    while i < N_CELLS
        invariant
            i <= N_CELLS,
            pool.free@.len() == i,
            forall|k: int| 0 <= k < i ==> pool.free@[k] == (N_CELLS - 1 - k) as u32,
        decreases N_CELLS - i,
    {
        pool.free.push((N_CELLS - 1 - i) as u32);
        i = i + 1;
    }
    pool.charged.clear();
    assert(pool.free@ =~= PoolState::initial().free);
}

/// Takes the top of the free stack; `None` if no cell is free.
pub fn get_free_cell_index(pool: &mut CellPool) -> (index: Option<u32>)
    ensures
        index == old(pool)@.top_free(),
        final(pool)@ == old(pool)@.acquire_free(),
{
    pool.free.pop()
}

/// Takes the top of the charged stack; `None` if no cell is charged.
pub fn get_charged_cell_index(pool: &mut CellPool) -> (index: Option<u32>)
    ensures
        index == old(pool)@.top_charged(),
        final(pool)@ == old(pool)@.acquire_charged(),
{
    pool.charged.pop()
}

/// Puts `index` on the free stack, unless the stack is full: then nothing
/// changes.
pub fn push_free_cell(pool: &mut CellPool, index: u32)
    ensures
        final(pool)@ == old(pool)@.release_free(index),
{
    if pool.free.len() < N_CELLS {
        pool.free.push(index);
    }
}

/// Puts `index` on the charged stack, unless the stack is full: then nothing
/// changes.
pub fn push_charged_cell(pool: &mut CellPool, index: u32)
    ensures
        final(pool)@ == old(pool)@.release_charged(index),
{
    if pool.charged.len() < N_CELLS {
        pool.charged.push(index);
    }
}

/// The top of the charged stack, left where it is.
pub fn peek_charged_cell_index(pool: &CellPool) -> (index: Option<u32>)
    ensures
        index == pool@.top_charged(),
{
    let n: usize = pool.charged.len();
    if n > 0 {
        Some(pool.charged[n - 1])
    } else {
        None
    }
}

/// A set of numbers below `n` has at most `n` elements.
proof fn lemma_cells_below(s: Set<u32>, n: u32)
    requires
        forall|x: u32| s.contains(x) ==> x < n,
    ensures
        s.finite(),
        s.len() <= n,
    decreases n,
{
    if n == 0 {
        assert(s =~= Set::<u32>::empty());
    } else {
        let m: u32 = (n - 1) as u32;
        lemma_cells_below(s.remove(m), m);
        if s.contains(m) {
            assert(s =~= s.remove(m).insert(m));
        } else {
            assert(s =~= s.remove(m));
        }
    }
}

/// In a sound pool the two stacks share no index and together list at most
/// `N_CELLS` of them.
pub proof fn lemma_capacity(s: PoolState)
    requires
        s.wf(),
    ensures
        s.free.len() + s.charged.len() <= N_CELLS,
        forall|index: u32| !(s.free.contains(index) && s.charged.contains(index)),
{
    let all = s.free + s.charged;
    vstd::seq_lib::lemma_no_dup_in_concat(s.free, s.charged);
    all.unique_seq_to_set();
    assert forall|x: u32| all.to_set().contains(x) implies x < N_CELLS by {
        let i = choose|i: int| 0 <= i < all.len() && all[i] == x;
        if i < s.free.len() {
            assert(all[i] == s.free[i]);
        } else {
            assert(all[i] == s.charged[i - s.free.len()]);
        }
    }
    lemma_cells_below(all.to_set(), N_CELLS as u32);
}

/// While a cell is held, the stacks list fewer than `N_CELLS` indices: there
/// is room to give it back.
pub proof fn lemma_room_for_held(s: PoolState, index: u32)
    requires
        s.wf(),
        s.holds(index),
    ensures
        s.free.len() + s.charged.len() < N_CELLS,
{
    let all = s.free + s.charged;
    vstd::seq_lib::lemma_no_dup_in_concat(s.free, s.charged);
    all.unique_seq_to_set();
    let listed = all.to_set();
    assert forall|x: u32| listed.contains(x) implies x < N_CELLS && x != index by {
        let i = choose|i: int| 0 <= i < all.len() && all[i] == x;
        if i < s.free.len() {
            assert(all[i] == s.free[i]);
        } else {
            assert(all[i] == s.charged[i - s.free.len()]);
        }
    }
    lemma_cells_below(listed, N_CELLS as u32);
    lemma_cells_below(listed.insert(index), N_CELLS as u32);
}

/// The pool of a new planet is sound and at rest, and hands out cell 0 first.
pub proof fn lemma_initial()
    ensures
        PoolState::initial().wf(),
        PoolState::initial().at_rest(),
        PoolState::initial().top_free() == Some(0u32),
{
}

/// Taking a cell from a sound pool leaves it sound, and the cell taken is
/// then held.
pub proof fn lemma_acquire(s: PoolState)
    requires
        s.wf(),
    ensures
        s.acquire_free().wf(),
        s.acquire_charged().wf(),
        s.top_free() matches Some(index) ==> s.acquire_free().holds(index),
        s.top_charged() matches Some(index) ==> s.acquire_charged().holds(index),
{
    lemma_capacity(s);
    if s.free.len() > 0 {
        let index = s.free.last();
        let rest = s.free.drop_last();
        assert(s.free.contains(index));
        assert forall|i: int| 0 <= i < rest.len() implies rest[i] != index by {
            assert(rest[i] == s.free[i]);
        }
    }
    if s.charged.len() > 0 {
        let index = s.charged.last();
        let rest = s.charged.drop_last();
        assert(s.charged.contains(index));
        assert forall|i: int| 0 <= i < rest.len() implies rest[i] != index by {
            assert(rest[i] == s.charged[i]);
        }
    }
}

/// Giving back a held cell puts it on the stack it was given to, and on that
/// one alone, leaves the pool sound, and moves no other cell.
pub proof fn lemma_release(s: PoolState, index: u32)
    requires
        s.wf(),
        s.holds(index),
    ensures
        s.release_free(index) == (PoolState { free: s.free.push(index), charged: s.charged }),
        s.release_charged(index) == (PoolState { free: s.free, charged: s.charged.push(index) }),
        s.release_free(index).wf(),
        s.release_charged(index).wf(),
        s.release_free(index).free.contains(index),
        s.release_charged(index).charged.contains(index),
        forall|other: u32|
            other != index ==> (s.release_free(index).free.contains(other) <==> s.free.contains(
                other,
            )),
        forall|other: u32|
            other != index ==> (s.release_charged(index).charged.contains(other)
                <==> s.charged.contains(other)),
{
    lemma_room_for_held(s, index);
    let free = s.free.push(index);
    let charged = s.charged.push(index);
    assert(free[s.free.len() as int] == index);
    assert(charged[s.charged.len() as int] == index);
    assert forall|other: u32| other != index implies (free.contains(other) <==> s.free.contains(
        other,
    )) by {
        if s.free.contains(other) {
            let i = choose|i: int| 0 <= i < s.free.len() && s.free[i] == other;
            assert(free[i] == other);
        }
    }
    assert forall|other: u32| other != index implies (charged.contains(other)
        <==> s.charged.contains(other)) by {
        if s.charged.contains(other) {
            let i = choose|i: int| 0 <= i < s.charged.len() && s.charged[i] == other;
            assert(charged[i] == other);
        }
    }
}

/// Invariant of the pool: whatever permitted calls are made on a sound pool,
/// it stays sound.
pub proof fn lemma_run_keeps_wf(s: PoolState, ops: Seq<PoolOp>)
    requires
        s.wf(),
        s.permits_all(ops),
    ensures
        s.run(ops).wf(),
    decreases ops.len(),
{
    if ops.len() > 0 {
        lemma_run_keeps_wf(s, ops.drop_last());
        let before = s.run(ops.drop_last());
        lemma_acquire(before);
        match ops.last() {
            PoolOp::AcquireFree | PoolOp::AcquireCharged => {},
            PoolOp::ReleaseFree(index) | PoolOp::ReleaseCharged(index) => {
                lemma_release(before, index);
            },
        }
    }
}

/// Invariant of the pool: in every state that can be reached, the two stacks
/// share no index and together list at most `N_CELLS` of them.
pub proof fn lemma_reachable_capacity(s: PoolState)
    requires
        s.reachable(),
    ensures
        s.wf(),
        s.free.len() + s.charged.len() <= N_CELLS,
        forall|index: u32| !(s.free.contains(index) && s.charged.contains(index)),
{
    let ops = choose|ops: Seq<PoolOp>| #[trigger]
        PoolState::initial().permits_all(ops) && PoolState::initial().run(ops) == s;
    lemma_initial();
    lemma_run_keeps_wf(PoolState::initial(), ops);
    lemma_capacity(s);
}

/// Nothing leaks and nothing doubles: after any permitted calls on a sound
/// pool, each cell of the planet is in exactly one place: on the free stack,
/// on the charged stack or held; and a stack lists it once.
pub proof fn lemma_every_cell_in_one_place(s: PoolState, ops: Seq<PoolOp>, index: u32)
    requires
        s.wf(),
        s.permits_all(ops),
        index < N_CELLS,
    ensures
        ({
            let r = s.run(ops);
            &&& r.free.contains(index) || r.charged.contains(index) || r.holds(index)
            &&& !(r.free.contains(index) && r.charged.contains(index))
            &&& !(r.free.contains(index) && r.holds(index))
            &&& !(r.charged.contains(index) && r.holds(index))
            &&& r.free.no_duplicates()
            &&& r.charged.no_duplicates()
        }),
{
    lemma_run_keeps_wf(s, ops);
    lemma_capacity(s.run(ops));
}

/// A held cell that is given back after any permitted calls is from then on
/// on the stack it was given to, and not on the other.
pub proof fn lemma_returned_cell_is_listed(s: PoolState, ops: Seq<PoolOp>, index: u32)
    requires
        s.wf(),
        s.permits_all(ops),
        s.run(ops).holds(index),
    ensures
        s.run(ops.push(PoolOp::ReleaseFree(index))).free.contains(index),
        !s.run(ops.push(PoolOp::ReleaseFree(index))).charged.contains(index),
        !s.run(ops.push(PoolOp::ReleaseFree(index))).holds(index),
        s.run(ops.push(PoolOp::ReleaseCharged(index))).charged.contains(index),
        !s.run(ops.push(PoolOp::ReleaseCharged(index))).free.contains(index),
        !s.run(ops.push(PoolOp::ReleaseCharged(index))).holds(index),
{
    lemma_run_keeps_wf(s, ops);
    lemma_release(s.run(ops), index);
    assert(ops.push(PoolOp::ReleaseFree(index)).drop_last() =~= ops);
    assert(ops.push(PoolOp::ReleaseCharged(index)).drop_last() =~= ops);
}

/// Last in, first out on the free stack: of two indices given to it, the
/// second comes back first, and then the first, and the stack is as before.
pub proof fn lemma_lifo_free(s: PoolState, a: u32, b: u32)
    requires
        s.free.len() + 2 <= N_CELLS,
    ensures
        ({
            let filled = s.release_free(a).release_free(b);
            &&& filled.top_free() == Some(b)
            &&& filled.acquire_free().top_free() == Some(a)
            &&& filled.acquire_free().acquire_free() == s
        }),
{
    let filled = s.release_free(a).release_free(b);
    assert(filled.free.drop_last() =~= s.free.push(a));
    assert(s.free.push(a).drop_last() =~= s.free);
}

/// Last in, first out on the charged stack: of two indices given to it, the
/// second comes back first, and then the first, and the stack is as before.
pub proof fn lemma_lifo_charged(s: PoolState, a: u32, b: u32)
    requires
        s.charged.len() + 2 <= N_CELLS,
    ensures
        ({
            let filled = s.release_charged(a).release_charged(b);
            &&& filled.top_charged() == Some(b)
            &&& filled.acquire_charged().top_charged() == Some(a)
            &&& filled.acquire_charged().acquire_charged() == s
        }),
{
    let filled = s.release_charged(a).release_charged(b);
    assert(filled.charged.drop_last() =~= s.charged.push(a));
    assert(s.charged.push(a).drop_last() =~= s.charged);
}

} // verus!
