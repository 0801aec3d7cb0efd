//! Generational-index storage: a reusable container handing out stable
//! handles (slot index plus generation counter) for externally-owned values.
//!
//! Slots freed by `remove` are recycled in LIFO order by later `push`es, and
//! each removal advances the slot's generation so every handle that pointed
//! at the removed value is permanently stale: it can never again resolve to
//! a live value, even after the slot is reused.

use vstd::prelude::*;

use core::marker::PhantomData;

verus! {

/// Stable handle into a [`DenseStorage`]: slot index plus the generation the
/// slot had when the value was inserted.
pub struct DenseStorageIndex<T>(pub usize, pub u32, pub PhantomData<T>);

impl<T> DenseStorageIndex<T> {
    /// Builds a handle from a slot index and a generation.
    pub fn new(index: usize, generational_index: u32) -> (r: Self)
        ensures
            r.0 == index,
            r.1 == generational_index,
    {
        DenseStorageIndex(index, generational_index, PhantomData)
    }
}

impl<T> Clone for DenseStorageIndex<T> {
    fn clone(&self) -> (r: Self)
        ensures
            r == *self,
    {
        DenseStorageIndex(self.0, self.1, PhantomData)
    }
}

impl<T> Copy for DenseStorageIndex<T> {

}

/// The mathematical state of a [`DenseStorage`]: the slot sequence (current
/// generation and optional occupant) and the stack of recycled slot indices.
/// Generations are unbounded naturals in the model; the executable container
/// carries them as `u32` and refuses a removal that would overflow one.
pub ghost struct ArenaView<T> {
    pub slots: Seq<(nat, Option<T>)>,
    pub free: Seq<int>,
}

impl<T> ArenaView<T> {
    /// Structural invariant: recycled indices are in range, point at vacant
    /// slots and are pairwise distinct, and every vacant slot is recorded in
    /// the recycle stack.
    pub open spec fn wf(self) -> bool {
        &&& forall|k: int|
            0 <= k < self.free.len() ==> 0 <= (#[trigger] self.free[k]) < self.slots.len()
                && self.slots[self.free[k]].1 is None
        &&& forall|k1: int, k2: int|
            0 <= k1 < k2 < self.free.len() ==> #[trigger] self.free[k1] != #[trigger] self.free[k2]
        &&& forall|i: int|
            0 <= i < self.slots.len() && (#[trigger] self.slots[i]).1 is None
                ==> self.free.contains(i)
    }

    /// A handle resolves exactly when its slot exists, the stored generation
    /// matches the handle's, and the slot is occupied.
    pub open spec fn valid(self, h: DenseStorageIndex<T>) -> bool {
        &&& h.0 < self.slots.len()
        &&& self.slots[h.0 as int].0 == h.1 as nat
        &&& self.slots[h.0 as int].1 is Some
    }

    /// The value a valid handle resolves to.
    pub open spec fn value_of(self, h: DenseStorageIndex<T>) -> T
        recommends
            self.valid(h),
    {
        self.slots[h.0 as int].1->0
    }

    /// What a lookup returns for a handle.
    pub open spec fn get(self, h: DenseStorageIndex<T>) -> Option<T> {
        if self.valid(h) {
            Some(self.value_of(h))
        } else {
            None
        }
    }

    /// A handle whose slot has advanced past the handle's generation. A stale
    /// handle never becomes valid again: generations only grow.
    pub open spec fn stale(self, h: DenseStorageIndex<T>) -> bool {
        &&& h.0 < self.slots.len()
        &&& self.slots[h.0 as int].0 > h.1 as nat
    }

    /// The slot the next insertion will use: the most recently recycled slot
    /// if one exists, else a fresh slot appended at the end.
    pub open spec fn push_slot(self) -> int {
        if self.free.len() > 0 {
            self.free.last()
        } else {
            self.slots.len() as int
        }
    }

    /// The generation the next inserted handle will carry.
    pub open spec fn push_gen(self) -> nat {
        if self.free.len() > 0 {
            self.slots[self.free.last()].0
        } else {
            0
        }
    }

    /// State after inserting `value`.
    pub open spec fn spec_push(self, value: T) -> Self {
        if self.free.len() > 0 {
            let i = self.free.last();
            ArenaView {
                slots: self.slots.update(i, (self.slots[i].0, Some(value))),
                free: self.free.drop_last(),
            }
        } else {
            ArenaView { slots: self.slots.push((0nat, Some(value))), free: self.free }
        }
    }

    /// The slot indices in `[0, n)` that hold a value, in increasing order.
    pub open spec fn occupied_upto(self, n: int) -> Seq<int>
        decreases n,
    {
        if n <= 0 {
            Seq::empty()
        } else if self.slots[n - 1].1 is Some {
            self.occupied_upto(n - 1).push(n - 1)
        } else {
            self.occupied_upto(n - 1)
        }
    }

    /// All occupied slot indices, in increasing order.
    pub open spec fn occupied(self) -> Seq<int> {
        self.occupied_upto(self.slots.len() as int)
    }

    /// The dense, 0-based position of slot `i` among the occupied slots: the
    /// number of occupied slots strictly before it.
    pub open spec fn dense_index(self, i: int) -> int {
        self.occupied_upto(i).len() as int
    }

    /// State after removing the value `h` refers to: a successful removal
    /// vacates the slot, advances its generation and pushes the slot index
    /// onto the recycle stack; a removal through a non-resolving handle
    /// changes nothing.
    pub open spec fn spec_remove(self, h: DenseStorageIndex<T>) -> Self {
        if self.valid(h) {
            ArenaView {
                slots: self.slots.update(h.0 as int, (self.slots[h.0 as int].0 + 1, None)),
                free: self.free.push(h.0 as int),
            }
        } else {
            self
        }
    }
}

proof fn lemma_push_wf<T>(v: ArenaView<T>, value: T)
    requires
        v.wf(),
    ensures
        v.spec_push(value).wf(),
{
    let v1 = v.spec_push(value);
    if v.free.len() > 0 {
        let i = v.free.last();
        assert forall|j: int|
            0 <= j < v1.slots.len() && (#[trigger] v1.slots[j]).1 is None implies v1.free.contains(
            j,
        ) by {
            assert(j != i);
            assert(v.slots[j].1 is None);
            assert(v.free.contains(j));
            let k = choose|k: int| 0 <= k < v.free.len() && v.free[k] == j;
            assert(k != v.free.len() - 1);
            assert(v1.free[k] == j);
        }
    }
}

proof fn lemma_remove_wf<T>(v: ArenaView<T>, h: DenseStorageIndex<T>)
    requires
        v.wf(),
    ensures
        v.spec_remove(h).wf(),
{
    let v1 = v.spec_remove(h);
    if v.valid(h) {
        assert forall|k: int|
            0 <= k < v1.free.len() implies 0 <= (#[trigger] v1.free[k]) < v1.slots.len()
            && v1.slots[v1.free[k]].1 is None by {
            if k < v.free.len() {
                assert(v.free[k] != h.0 as int);
            }
        }
        assert forall|k1: int, k2: int| 0 <= k1 < k2 < v1.free.len() implies #[trigger] v1.free[k1]
            != #[trigger] v1.free[k2] by {
            if k2 == v.free.len() as int {
                assert(v.free[k1] != h.0 as int);
            }
        }
        assert forall|j: int|
            0 <= j < v1.slots.len() && (#[trigger] v1.slots[j]).1 is None implies v1.free.contains(
            j,
        ) by {
            if j == h.0 as int {
                assert(v1.free[v.free.len() as int] == h.0 as int);
            } else {
                assert(v.slots[j].1 is None);
                assert(v.free.contains(j));
                let k = choose|k: int| 0 <= k < v.free.len() && v.free[k] == j;
                assert(v1.free[k] == j);
            }
        }
    }
}

/// The occupied-slot sequence is a bijection between dense positions and
/// occupied slot indices: entry `k` is an occupied slot whose dense index is
/// `k`, and every occupied slot below `n` appears at its dense index.
pub proof fn lemma_occupied_upto<T>(v: ArenaView<T>, n: int)
    requires
        0 <= n,
    ensures
        v.occupied_upto(n).len() <= n,
        forall|k: int|
            0 <= k < v.occupied_upto(n).len() ==> {
                let i = #[trigger] v.occupied_upto(n)[k];
                &&& 0 <= i < n
                &&& v.slots[i].1 is Some
                &&& v.dense_index(i) == k
            },
        forall|j: int|
            0 <= j < n && (#[trigger] v.slots[j]).1 is Some ==> v.dense_index(j)
                < v.occupied_upto(n).len() && v.occupied_upto(n)[v.dense_index(j)] == j,
    decreases n,
{
    if n > 0 {
        lemma_occupied_upto(v, n - 1);
    }
}

/// A generational index storage container.
pub struct DenseStorage<T> {
    storage: Vec<(u32, Option<T>)>,
    recycled_indices: Vec<usize>,
}

impl<T> View for DenseStorage<T> {
    type V = ArenaView<T>;

    closed spec fn view(&self) -> ArenaView<T> {
        ArenaView {
            slots: self.storage@.map_values(|p: (u32, Option<T>)| (p.0 as nat, p.1)),
            free: self.recycled_indices@.map_values(|x: usize| x as int),
        }
    }
}

impl<T> DenseStorage<T> {
    /// Creates a new empty container.
    pub fn new() -> (r: Self)
        ensures
            r@.wf(),
            r@.slots.len() == 0,
            r@.free.len() == 0,
    {
        let r = Self { storage: Vec::new(), recycled_indices: Vec::new() };
        proof {
            assert(r@.slots =~= Seq::<(nat, Option<T>)>::empty());
        }
        r
    }

    /// The number of slots the backing store holds, occupied or not.
    pub fn slot_count(&self) -> (n: usize)
        ensures
            n == self@.slots.len(),
    {
        self.storage.len()
    }

    /// Pushes a new value into the container and returns a `DenseStorageIndex`
    /// that can be used to retrieve the value later. The most recently
    /// recycled slot is reused if one exists; otherwise a fresh slot with
    /// generation 0 is appended.
    pub fn push(&mut self, value: T) -> (h: DenseStorageIndex<T>)
        requires
            old(self)@.wf(),
        ensures
            final(self)@.wf(),
            final(self)@ == old(self)@.spec_push(value),
            h.0 as int == old(self)@.push_slot(),
            h.1 as nat == old(self)@.push_gen(),
            final(self)@.valid(h),
            final(self)@.get(h) == Some(value),
            !old(self)@.valid(h),
    {
        let ghost pre = self@;
        if let Some(i) = self.recycled_indices.pop() {
            proof {
                assert(pre.free.last() == i);
                assert(pre.slots[i as int].1 is None);
            }
            let g = self.storage[i].0;
            let slot = &mut self.storage[i];
            slot.1 = Some(value);
            proof {
                assert(self@.slots =~= pre.slots.update(i as int, (g as nat, Some(value))));
                assert(self@.free =~= pre.free.drop_last());
                assert(self@ == pre.spec_push(value));
                lemma_push_wf(pre, value);
            }
            DenseStorageIndex(i, g, PhantomData)
        } else {
            self.storage.push((0, Some(value)));
            let h = DenseStorageIndex(self.storage.len() - 1, 0, PhantomData);
            proof {
                assert(self@.slots =~= pre.slots.push((0nat, Some(value))));
                assert(self@.free =~= pre.free);
                assert(self@ == pre.spec_push(value));
                lemma_push_wf(pre, value);
            }
            h
        }
    }

    /// Gets a value from the container with the given index or `None` if the
    /// handle does not resolve: the slot is out of range, vacant, or its
    /// generation differs from the handle's.
    pub fn get(&self, index: DenseStorageIndex<T>) -> (r: Option<&T>)
        ensures
            match r {
                Some(v) => self@.valid(index) && *v == self@.value_of(index),
                None => !self@.valid(index),
            },
    {
        if index.0 < self.storage.len() {
            let slot = &self.storage[index.0];
            if slot.0 == index.1 {
                slot.1.as_ref()
            } else {
                None
            }
        } else {
            None
        }
    }

    /// Removes the value the given handle refers to and returns it. A handle
    /// that does not resolve (per `get`'s rule) removes nothing and leaves
    /// the container untouched. A successful removal advances the slot's
    /// generation, so every outstanding handle to that slot becomes
    /// permanently stale, and recycles the slot index.
    pub fn remove(&mut self, index: DenseStorageIndex<T>) -> (r: Option<T>)
        requires
            old(self)@.wf(),
            old(self)@.valid(index) ==> index.1 < u32::MAX,
        ensures
            final(self)@.wf(),
            final(self)@ == old(self)@.spec_remove(index),
            r == old(self)@.get(index),
            !final(self)@.valid(index),
            old(self)@.valid(index) ==> final(self)@.stale(index),
    {
        let ghost pre = self@;
        if index.0 < self.storage.len() {
            let g = self.storage[index.0].0;
            let occupied = self.storage[index.0].1.is_some();
            if g == index.1 && occupied {
                let slot = &mut self.storage[index.0];
                slot.0 = index.1 + 1;
                let v = slot.1.take();
                self.recycled_indices.push(index.0);
                proof {
                    assert(self@.slots =~= pre.slots.update(
                        index.0 as int,
                        (index.1 as nat + 1, None),
                    ));
                    assert(self@.free =~= pre.free.push(index.0 as int));
                    assert(self@ == pre.spec_remove(index));
                    lemma_remove_wf(pre, index);
                }
                v
            } else {
                None
            }
        } else {
            None
        }
    }

    /// Enumerates the occupied slots in slot-index order, each paired with
    /// its current handle. A fresh snapshot is produced on every call.
    pub fn iter<'a>(&'a self) -> (r: Vec<(DenseStorageIndex<T>, &'a T)>)
        ensures
            r@.len() == self@.occupied().len(),
            forall|k: int|
                0 <= k < r@.len() ==> {
                    let i = self@.occupied()[k];
                    &&& (#[trigger] r@[k]).0.0 as int == i
                    &&& r@[k].0.1 as nat == self@.slots[i].0
                    &&& self@.valid(r@[k].0)
                    &&& *r@[k].1 == self@.slots[i].1->0
                },
    {
        let mut r: Vec<(DenseStorageIndex<T>, &'a T)> = Vec::new();
        let mut idx: usize = 0;
        while idx < self.storage.len()
            invariant
                idx <= self.storage.len(),
                r@.len() == self@.occupied_upto(idx as int).len(),
                forall|k: int|
                    0 <= k < r@.len() ==> {
                        let i = self@.occupied_upto(idx as int)[k];
                        &&& (#[trigger] r@[k]).0.0 as int == i
                        &&& r@[k].0.1 as nat == self@.slots[i].0
                        &&& self@.valid(r@[k].0)
                        &&& *r@[k].1 == self@.slots[i].1->0
                    },
            decreases self.storage.len() - idx,
        {
            proof {
                lemma_occupied_upto(self@, idx as int);
            }
            let slot = &self.storage[idx];
            if let Some(v) = slot.1.as_ref() {
                r.push((DenseStorageIndex(idx, slot.0, PhantomData), v));
            }
            idx += 1;
        }
        r
    }
}

/// One arena operation, for stating laws over operation sequences.
pub enum ArenaOp<T> {
    Push(T),
    Remove(DenseStorageIndex<T>),
}

impl<T> ArenaView<T> {
    /// The state an operation leads to.
    pub open spec fn step(self, op: ArenaOp<T>) -> Self {
        match op {
            ArenaOp::Push(value) => self.spec_push(value),
            ArenaOp::Remove(h) => self.spec_remove(h),
        }
    }

    /// The state a whole operation sequence leads to.
    pub open spec fn apply_ops(self, ops: Seq<ArenaOp<T>>) -> Self
        decreases ops.len(),
    {
        if ops.len() == 0 {
            self
        } else {
            self.step(ops[0]).apply_ops(ops.drop_first())
        }
    }

    /// Whether some operation in the sequence successfully removes the value
    /// in `h`'s slot (a removal through a handle that resolves at that time).
    pub open spec fn ops_remove_slot(self, ops: Seq<ArenaOp<T>>, h: DenseStorageIndex<T>) -> bool
        decreases ops.len(),
    {
        if ops.len() == 0 {
            false
        } else {
            let hit = match ops[0] {
                ArenaOp::Remove(h2) => h2.0 == h.0 && self.valid(h2),
                ArenaOp::Push(_) => false,
            };
            hit || self.step(ops[0]).ops_remove_slot(ops.drop_first(), h)
        }
    }
}

/// Every operation preserves the arena invariant.
pub proof fn lemma_step_wf<T>(v: ArenaView<T>, op: ArenaOp<T>)
    requires
        v.wf(),
    ensures
        v.step(op).wf(),
{
    match op {
        ArenaOp::Push(value) => lemma_push_wf(v, value),
        ArenaOp::Remove(h) => lemma_remove_wf(v, h),
    }
}

/// A stale handle stays stale across any single operation: generations never
/// decrease, and a slot is never rewound to an older generation.
pub proof fn lemma_step_stale<T>(v: ArenaView<T>, op: ArenaOp<T>, h: DenseStorageIndex<T>)
    requires
        v.wf(),
        v.stale(h),
    ensures
        v.step(op).stale(h),
{
}

/// A stale handle stays stale across any operation sequence, so a lookup
/// with it never succeeds again.
pub proof fn lemma_stale_after_ops<T>(v: ArenaView<T>, ops: Seq<ArenaOp<T>>, h: DenseStorageIndex<
    T,
>)
    requires
        v.wf(),
        v.stale(h),
    ensures
        v.apply_ops(ops).wf(),
        v.apply_ops(ops).stale(h),
        v.apply_ops(ops).get(h) is None,
    decreases ops.len(),
{
    if ops.len() > 0 {
        lemma_step_wf(v, ops[0]);
        lemma_step_stale(v, ops[0], h);
        lemma_stale_after_ops(v.step(ops[0]), ops.drop_first(), h);
    }
}

/// For every sequence of insertions and removals starting from a state where
/// handle `h` resolves, a lookup with `h` afterwards succeeds if and only if
/// `h`'s slot was never successfully removed along the way, and on success it
/// still returns the original value. In particular a lookup with `h` after
/// its removal fails even if the slot has been reused by later insertions.
pub proof fn lemma_get_after_ops<T>(v: ArenaView<T>, ops: Seq<ArenaOp<T>>, h: DenseStorageIndex<T>)
    requires
        v.wf(),
        v.valid(h),
    ensures
        v.apply_ops(ops).wf(),
        v.apply_ops(ops).get(h) == if v.ops_remove_slot(ops, h) {
            None::<T>
        } else {
            Some(v.value_of(h))
        },
    decreases ops.len(),
{
    if ops.len() > 0 {
        let v1 = v.step(ops[0]);
        lemma_step_wf(v, ops[0]);
        match ops[0] {
            ArenaOp::Push(value) => {
                assert(v1.valid(h) && v1.value_of(h) == v.value_of(h));
                lemma_get_after_ops(v1, ops.drop_first(), h);
            },
            ArenaOp::Remove(h2) => {
                if h2.0 == h.0 && v.valid(h2) {
                    assert(v1.stale(h));
                    lemma_stale_after_ops(v1, ops.drop_first(), h);
                } else {
                    assert(v1.valid(h) && v1.value_of(h) == v.value_of(h));
                    lemma_get_after_ops(v1, ops.drop_first(), h);
                }
            },
        }
    }
}

/// Removing a handle twice is idempotent: the second removal returns nothing
/// and leaves the arena, including its recycle stack, unchanged.
pub proof fn lemma_remove_twice<T>(v: ArenaView<T>, h: DenseStorageIndex<T>)
    requires
        v.wf(),
    ensures
        v.spec_remove(h).spec_remove(h) == v.spec_remove(h),
        v.spec_remove(h).get(h) is None,
{
    let v1 = v.spec_remove(h);
    assert(!v1.valid(h));
}

} // verus!
