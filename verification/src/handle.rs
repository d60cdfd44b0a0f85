//! Typed, generation-checked handles and the sparse registry behind them.
//!
//! A raw handle packs a one-based generation in its upper 32 bits and a slot
//! index in its lower 32 bits. A slot emptied by a remove or a clear is
//! reused only after its generation has advanced, so a handle that was
//! removed or cleared cannot address an object stored later in its slot,
//! until that slot's generation wraps around.
use core::marker::PhantomData;
use vstd::prelude::*;

verus! {

/// Span of the index half of a raw handle.
pub open spec fn index_span() -> int {
    0x1_0000_0000
}

/// The raw value of the handle for slot `index` at `generation`.
pub open spec fn raw_from_parts(index: u32, generation: u32) -> u64 {
    (generation as int * index_span() + index as int) as u64
}

/// The slot index that a raw handle names.
pub open spec fn raw_index(raw: u64) -> u32 {
    (raw as int % index_span()) as u32
}

/// The generation that a raw handle names.
pub open spec fn raw_generation(raw: u64) -> u32 {
    (raw as int / index_span()) as u32
}

/// What `next_generation` gives: the next one-based generation, skipping zero on wrap.
pub open spec fn next_generation_spec(current: u32) -> u32 {
    if current == u32::MAX {
        1
    } else {
        (current + 1) as u32
    }
}

/// A slot's next generation is never zero and never the one it had: it is
/// one more, except that after the largest generation it starts again at one.
pub proof fn lemma_next_generation(current: u32)
    ensures
        next_generation_spec(current) != 0,
        next_generation_spec(current) != current,
        current < u32::MAX ==> next_generation_spec(current) == current + 1,
        current == u32::MAX ==> next_generation_spec(current) == 1,
{
}

/// Packing a handle and reading it back gives the same index and generation.
pub proof fn lemma_raw_parts_round_trip(index: u32, generation: u32)
    ensures
        generation as int * index_span() + index as int <= u64::MAX,
        raw_index(raw_from_parts(index, generation)) == index,
        raw_generation(raw_from_parts(index, generation)) == generation,
{
    assert(generation as int * index_span() <= 0xffff_ffff * 0x1_0000_0000) by (nonlinear_arith)
        requires
            generation <= 0xffff_ffff,
            index_span() == 0x1_0000_0000,
    ;
    let raw = generation as int * index_span() + index as int;
    vstd::arithmetic::div_mod::lemma_fundamental_div_mod_converse(raw, index_span(), generation as int, index as int);
}

/// Two handles with the same raw value name the same slot and generation.
pub proof fn lemma_raw_from_parts_injective(i1: u32, g1: u32, i2: u32, g2: u32)
    ensures
        raw_from_parts(i1, g1) == raw_from_parts(i2, g2) <==> (i1 == i2 && g1 == g2),
{
    lemma_raw_parts_round_trip(i1, g1);
    lemma_raw_parts_round_trip(i2, g2);
}

/// Typed, generation-safe handle used by host-side object registries.
#[derive(Debug, Hash)]
pub struct Handle<T> {
    raw: u64,
    marker: PhantomData<T>,
}

impl<T> View for Handle<T> {
    type V = u64;

    closed spec fn view(&self) -> u64 {
        self.raw
    }
}

impl<T> Handle<T> {
    /// The handle that never resolves (raw value 0).
    pub fn invalid() -> (h: Self)
        ensures
            h@ == 0,
    {
        Self { raw: 0, marker: PhantomData }
    }

    pub fn from_raw(raw: u64) -> (h: Self)
        ensures
            h@ == raw,
    {
        Self { raw, marker: PhantomData }
    }

    pub fn raw(self) -> (r: u64)
        ensures
            r == self@,
    {
        self.raw
    }

    pub fn is_valid(self) -> (b: bool)
        ensures
            b == (self@ != 0),
    {
        self.raw != 0
    }

    fn from_parts(index: u32, generation: u32) -> (h: Self)
        ensures
            h@ == raw_from_parts(index, generation),
    {
        proof {
            lemma_raw_parts_round_trip(index, generation);
            let g = generation as u64;
            let i = index as u64;
            assert(((g << 32u64) | i) == g * 0x1_0000_0000u64 + i) by (bit_vector)
                requires
                    g <= 0xffff_ffffu64,
                    i <= 0xffff_ffffu64,
            ;
        }
        Self::from_raw(((generation as u64) << 32) | index as u64)
    }

    fn parts(self) -> (r: Option<(u32, u32)>)
        ensures
            r == (if self@ == 0 {
                None
            } else {
                Some((raw_index(self@), raw_generation(self@)))
            }),
    {
        if !self.is_valid() {
            return None;
        }
        let raw = self.raw;
        proof {
            assert(raw as u32 == raw % 0x1_0000_0000u64) by (bit_vector);
            assert((raw >> 32u64) == raw / 0x1_0000_0000u64) by (bit_vector);
        }
        Some((raw as u32, (raw >> 32) as u32))
    }
}

impl<T> Clone for Handle<T> {
    fn clone(&self) -> (r: Self)
        ensures
            r == *self,
    {
        *self
    }
}

impl<T> Copy for Handle<T> {

}

impl<T> Default for Handle<T> {
    fn default() -> (h: Self)
        ensures
            h@ == 0,
    {
        Self::invalid()
    }
}

impl<T> PartialEq for Handle<T> {
    fn eq(&self, other: &Self) -> (r: bool) {
        self.raw == other.raw
    }
}

impl<T> vstd::std_specs::cmp::PartialEqSpecImpl for Handle<T> {
    open spec fn obeys_eq_spec() -> bool {
        true
    }

    open spec fn eq_spec(&self, other: &Self) -> bool {
        self@ == other@
    }
}

impl<T> Eq for Handle<T> {

}

struct Slot<T> {
    generation: u32,
    value: Option<T>,
}

/// The abstract state of a registry: one generation and one optional value
/// per slot, and the stack of free slot indices.
pub struct RegistryView<T> {
    pub generations: Seq<u32>,
    pub values: Seq<Option<T>>,
    pub free: Seq<u32>,
}

/// Number of occupied slots.
pub open spec fn occupied_count<T>(values: Seq<Option<T>>) -> nat
    decreases values.len(),
{
    if values.len() == 0 {
        0
    } else {
        occupied_count(values.drop_last()) + if values.last() is Some {
            1nat
        } else {
            0nat
        }
    }
}

impl<T> RegistryView<T> {
    /// Well-formedness: one generation per slot, every generation nonzero, at
    /// most 2^32 slots, and the free stack lists each empty slot exactly once.
    pub open spec fn wf(self) -> bool {
        &&& self.generations.len() == self.values.len()
        &&& self.values.len() <= index_span()
        &&& forall|i: int| 0 <= i < self.generations.len() ==> self.generations[i] >= 1
        &&& forall|k: int| 0 <= k < self.free.len() ==> (self.free[k] as int) < self.values.len()
        &&& forall|k: int|
            0 <= k < self.free.len() ==> (#[trigger] self.values[self.free[k] as int]) is None
        &&& forall|k1: int, k2: int|
            0 <= k1 < k2 < self.free.len() ==> self.free[k1] != self.free[k2]
        &&& forall|i: int|
            0 <= i < self.values.len() && (#[trigger] self.values[i]) is None ==> exists|k: int|
                0 <= k < self.free.len() && self.free[k] as int == i
    }

    /// The object a raw handle resolves to, if any.
    pub open spec fn lookup(self, raw: u64) -> Option<T> {
        let index = raw_index(raw) as int;
        if raw == 0 {
            None
        } else if index < self.values.len() && self.generations[index] == raw_generation(raw) {
            self.values[index]
        } else {
            None
        }
    }

    /// Whether inserting one more object is possible without running out of indices.
    pub open spec fn can_insert(self) -> bool {
        self.free.len() > 0 || self.values.len() <= u32::MAX
    }

    /// The state after inserting `value`, and the raw handle returned.
    pub open spec fn insert_result(self, value: T) -> (RegistryView<T>, u64) {
        if self.free.len() > 0 {
            let index = self.free.last();
            let generation = next_generation_spec(self.generations[index as int]);
            (
                RegistryView {
                    generations: self.generations.update(index as int, generation),
                    values: self.values.update(index as int, Some(value)),
                    free: self.free.drop_last(),
                },
                raw_from_parts(index, generation),
            )
        } else {
            (
                RegistryView {
                    generations: self.generations.push(1),
                    values: self.values.push(Some(value)),
                    free: self.free,
                },
                raw_from_parts(self.values.len() as u32, 1),
            )
        }
    }

    /// The state after removing the object that `raw` resolves to, and the object removed.
    pub open spec fn remove_result(self, raw: u64) -> (RegistryView<T>, Option<T>) {
        match self.lookup(raw) {
            Some(v) => (
                RegistryView {
                    generations: self.generations,
                    values: self.values.update(raw_index(raw) as int, None),
                    free: self.free.push(raw_index(raw)),
                },
                Some(v),
            ),
            None => (self, None),
        }
    }

    /// The same registry with slot `index` holding `value`.
    pub open spec fn with_value(self, index: int, value: Option<T>) -> RegistryView<T> {
        RegistryView { values: self.values.update(index, value), ..self }
    }

    /// The empty registry.
    pub open spec fn empty() -> RegistryView<T> {
        RegistryView { generations: Seq::empty(), values: Seq::empty(), free: Seq::empty() }
    }

    /// Number of live objects.
    pub open spec fn live_count(self) -> nat {
        occupied_count(self.values)
    }

    /// The state after `clear`: every slot kept but emptied under an advanced
    /// generation, and every index free, the lowest one on top.
    pub open spec fn clear_result(self) -> RegistryView<T> {
        RegistryView {
            generations: self.generations.map_values(|g: u32| next_generation_spec(g)),
            values: Seq::new(self.values.len(), |i: int| None::<T>),
            free: Seq::new(self.values.len(), |k: int| (self.values.len() - 1 - k) as u32),
        }
    }

    /// Whether `raw` names a slot it can no longer reach: the slot's
    /// generation has moved past the handle's, or the slot is empty under the
    /// handle's own generation.
    pub open spec fn retired(self, raw: u64) -> bool {
        let i = raw_index(raw) as int;
        &&& raw != 0
        &&& i < self.values.len()
        &&& (raw_generation(raw) < self.generations[i] || (raw_generation(raw)
            == self.generations[i] && self.values[i] is None))
    }

    /// The state after one registry operation. An insert into a registry
    /// that has run out of indices does not happen.
    pub open spec fn apply_op(self, op: RegistryOp<T>) -> RegistryView<T> {
        match op {
            RegistryOp::Insert(v) => if self.can_insert() {
                self.insert_result(v).0
            } else {
                self
            },
            RegistryOp::Remove(raw) => self.remove_result(raw).0,
            RegistryOp::Clear => self.clear_result(),
        }
    }

    /// The state after a run of registry operations, first to last.
    pub open spec fn run_ops(self, ops: Seq<RegistryOp<T>>) -> RegistryView<T>
        decreases ops.len(),
    {
        if ops.len() == 0 {
            self
        } else {
            self.run_ops(ops.drop_last()).apply_op(ops.last())
        }
    }
}

/// A registry operation, as the laws about runs of operations speak of them.
pub enum RegistryOp<T> {
    Insert(T),
    Remove(u64),
    Clear,
}

/// How many operations of a run may advance a slot's generation: each
/// insert and each clear.
pub open spec fn generation_advances<T>(ops: Seq<RegistryOp<T>>) -> nat
    decreases ops.len(),
{
    if ops.len() == 0 {
        0
    } else {
        generation_advances(ops.drop_last()) + if ops.last() is Remove {
            0nat
        } else {
            1nat
        }
    }
}

/// Sparse registry backing the ABI's `uint64_t` object handles.
///
/// Handles encode a one-based generation and a vector slot. Removed slots are
/// reused only after their generation advances, so a stale handle cannot
/// address a newly inserted object.
pub struct HandleRegistry<T> {
    slots: Vec<Slot<T>>,
    free: Vec<u32>,
}

impl<T> View for HandleRegistry<T> {
    type V = RegistryView<T>;

    closed spec fn view(&self) -> RegistryView<T> {
        RegistryView {
            generations: self.slots@.map_values(|s: Slot<T>| s.generation),
            values: self.slots@.map_values(|s: Slot<T>| s.value),
            free: self.free@,
        }
    }
}

impl<T> Default for HandleRegistry<T> {
    fn default() -> (r: Self)
        ensures
            r@ == RegistryView::<T>::empty(),
            r@.wf(),
    {
        Self::new()
    }
}

/// Advances a generation, skipping zero so that a live handle is never the invalid one.
pub fn next_generation(current: u32) -> (r: u32)
    ensures
        r == next_generation_spec(current),
        r != 0,
        current < u32::MAX ==> r == current + 1,
        current == u32::MAX ==> r == 1,
{
    let next = current.wrapping_add(1);
    if next == 0 {
        1
    } else {
        next
    }
}

impl<T> HandleRegistry<T> {
    pub fn new() -> (r: Self)
        ensures
            r@ == RegistryView::<T>::empty(),
            r@.wf(),
    {
        let r = Self { slots: Vec::new(), free: Vec::new() };
        assert(r@.generations =~= Seq::<u32>::empty());
        assert(r@.values =~= Seq::<Option<T>>::empty());
        r
    }

    /// Number of live objects.
    pub fn len(&self) -> (n: usize)
        ensures
            n == self@.live_count(),
    {
        let mut count: usize = 0;
        let mut i: usize = 0;
        while i < self.slots.len()
            invariant
                i <= self.slots.len(),
                count == occupied_count(self@.values.subrange(0, i as int)),
                count <= i,
            decreases self.slots.len() - i,
        {
            proof {
                assert(self@.values.subrange(0, i as int + 1).drop_last() =~= self@.values.subrange(
                    0,
                    i as int,
                ));
            }
            if self.slots[i].value.is_some() {
                count = count + 1;
            }
            i = i + 1;
        }
        assert(self@.values.subrange(0, i as int) =~= self@.values);
        count
    }

    /// Whether no slot holds an object.
    pub fn is_empty(&self) -> (b: bool)
        ensures
            b <==> (forall|i: int| 0 <= i < self@.values.len() ==> self@.values[i] is None),
    {
        let mut i: usize = 0;
        while i < self.slots.len()
            invariant
                i <= self.slots.len(),
                forall|j: int| 0 <= j < i ==> self@.values[j] is None,
            decreases self.slots.len() - i,
        {
            if self.slots[i].value.is_some() {
                assert(self@.values[i as int] is Some);
                return false;
            }
            i = i + 1;
        }
        true
    }

    /// Whether another object can be stored without running out of slot indices.
    pub fn has_room(&self) -> (b: bool)
        ensures
            b == self@.can_insert(),
    {
        self.free.len() > 0 || self.slots.len() <= 0xffff_ffff
    }

    /// Stores `value` and returns the handle that now resolves to it.
    pub fn insert(&mut self, value: T) -> (h: Handle<T>)
        requires
            old(self)@.wf(),
            old(self)@.can_insert(),
        ensures
            final(self)@ == old(self)@.insert_result(value).0,
            h@ == old(self)@.insert_result(value).1,
            final(self)@.wf(),
    {
        let ghost pre = self@;
        if let Some(index) = self.free.pop() {
            assert(pre.values[index as int] is None);
            let generation = next_generation(self.slots[index as usize].generation);
            self.slots.set(index as usize, Slot { generation, value: Some(value) });
            let ghost post = self@;
            let ghost expect = pre.insert_result(value).0;
            assert(post.generations =~= expect.generations);
            assert(post.values =~= expect.values);
            assert(post.free =~= expect.free);
            proof {
                assert forall|i: int|
                    0 <= i < post.values.len() && (#[trigger] post.values[i]) is None implies exists|
                    k: int,
                |
                    0 <= k < post.free.len() && post.free[k] as int == i by {
                    assert(i != index as int);
                    assert(pre.values[i] is None);
                    let k = choose|k: int| 0 <= k < pre.free.len() && pre.free[k] as int == i;
                    assert(k != pre.free.len() - 1);
                    assert(post.free[k] as int == i);
                }
                assert forall|k: int| 0 <= k < post.free.len() implies (#[trigger] post.values[post.free[k] as int]) is None by {
                    assert(pre.free[k] != index);
                    assert(pre.values[pre.free[k] as int] is None);
                }
            }
            return Handle::from_parts(index, generation);
        }
        let index = self.slots.len() as u32;
        self.slots.push(Slot { generation: 1, value: Some(value) });
        let ghost post = self@;
        let ghost expect = pre.insert_result(value).0;
        assert(post.generations =~= expect.generations);
        assert(post.values =~= expect.values);
        proof {
            assert forall|i: int|
                0 <= i < post.values.len() && (#[trigger] post.values[i]) is None implies exists|
                k: int,
            |
                0 <= k < post.free.len() && post.free[k] as int == i by {
                assert(i < pre.values.len());
                assert(pre.values[i] is None);
            }
            assert forall|k: int| 0 <= k < post.free.len() implies (#[trigger] post.values[post.free[k] as int]) is None by {
                assert(pre.values[pre.free[k] as int] is None);
            }
        }
        Handle::from_parts(index, 1)
    }

    /// The object that `handle` resolves to, if it is live.
    pub fn get(&self, handle: Handle<T>) -> (r: Option<&T>)
        ensures
            match self@.lookup(handle@) {
                Some(v) => r == Some(&v),
                None => r is None,
            },
    {
        let (index, generation) = match handle.parts() {
            Some(p) => p,
            None => return None,
        };
        if index as usize >= self.slots.len() {
            return None;
        }
        let slot = &self.slots[index as usize];
        if slot.generation == generation {
            slot.value.as_ref()
        } else {
            None
        }
    }

    /// Mutable access to the object that `handle` resolves to, if it is live.
    pub fn get_mut(&mut self, handle: Handle<T>) -> (r: Option<&mut T>)
        ensures
            match old(self)@.lookup(handle@) {
                Some(v) => {
                    &&& r is Some
                    &&& *r->0 == v
                    &&& final(self)@.generations == old(self)@.generations
                    &&& final(self)@.free == old(self)@.free
                    &&& final(self)@.values == old(self)@.values.update(
                        raw_index(handle@) as int,
                        Some(*final(r->0)),
                    )
                },
                None => r is None && final(self)@ == old(self)@,
            },
            old(self)@.wf() ==> final(self)@.wf(),
    {
        let (index, generation) = match handle.parts() {
            Some(p) => p,
            None => return None,
        };
        if index as usize >= self.slots.len() {
            return None;
        }
        if self.slots[index as usize].generation != generation {
            return None;
        }
        if self.slots[index as usize].value.is_none() {
            return None;
        }
        proof {
            lemma_overwrite_live_value_keeps_wf(self@, index as int);
        }
        let slot = &mut self.slots[index as usize];
        slot.value.as_mut()
    }

    /// Takes the object out of the slot that `handle` resolves to; the slot
    /// joins the free stack.
    pub fn remove(&mut self, handle: Handle<T>) -> (r: Option<T>)
        requires
            old(self)@.wf(),
        ensures
            final(self)@ == old(self)@.remove_result(handle@).0,
            r == old(self)@.remove_result(handle@).1,
            final(self)@.wf(),
    {
        let ghost pre = self@;
        let (index, generation) = match handle.parts() {
            Some(p) => p,
            None => return None,
        };
        if index as usize >= self.slots.len() {
            return None;
        }
        if self.slots[index as usize].generation != generation {
            return None;
        }
        if self.slots[index as usize].value.is_none() {
            return None;
        }
        let mut emptied = Slot { generation, value: None };
        core::mem::swap(&mut emptied, &mut self.slots[index as usize]);
        self.free.push(index);
        let ghost post = self@;
        let ghost expect = pre.remove_result(handle@).0;
        assert(post.generations =~= expect.generations);
        assert(post.values =~= expect.values);
        assert(post.free =~= expect.free);
        proof {
            assert forall|k1: int, k2: int|
                0 <= k1 < k2 < post.free.len() implies post.free[k1] != post.free[k2] by {
                if k2 == post.free.len() - 1 && pre.free[k1] == index {
                    assert(pre.values[pre.free[k1] as int] is None);
                }
            }
            assert forall|k: int| 0 <= k < post.free.len() implies (#[trigger] post.values[post.free[k] as int]) is None by {
                if k < pre.free.len() {
                    assert(pre.values[pre.free[k] as int] is None);
                }
            }
            assert forall|i: int|
                0 <= i < post.values.len() && (#[trigger] post.values[i]) is None implies exists|
                k: int,
            |
                0 <= k < post.free.len() && post.free[k] as int == i by {
                if i == index as int {
                    assert(post.free[post.free.len() - 1] as int == i);
                } else {
                    assert(pre.values[i] is None);
                    let k = choose|k: int| 0 <= k < pre.free.len() && pre.free[k] as int == i;
                    assert(post.free[k] as int == i);
                }
            }
        }
        emptied.value
    }

    /// Drops every object. Each slot's generation advances, so no handle
    /// given out before the clear reaches an object stored after it.
    pub fn clear(&mut self)
        requires
            old(self)@.wf(),
        ensures
            final(self)@ == old(self)@.clear_result(),
            final(self)@.wf(),
    {
        let ghost pre = self@;
        let n = self.slots.len();
        proof {
            assert forall|j: int| 0 <= j < n implies (#[trigger] self.slots@[j]).generation
                == pre.generations[j] && self.slots@[j].value == pre.values[j] by {
                assert(pre.generations[j] == self.slots@[j].generation);
                assert(pre.values[j] == self.slots@[j].value);
            }
        }
        let mut i: usize = 0;
        while i < n
            invariant
                i <= n,
                n == self.slots@.len(),
                n == pre.values.len(),
                pre.generations.len() == n,
                self.free@ == pre.free,
                forall|j: int|
                    0 <= j < i ==> (#[trigger] self.slots@[j]).generation == next_generation_spec(
                        pre.generations[j],
                    ) && self.slots@[j].value is None,
                forall|j: int|
                    i <= j < n ==> (#[trigger] self.slots@[j]).generation == pre.generations[j]
                        && self.slots@[j].value == pre.values[j],
            decreases n - i,
        {
            let g = self.slots[i].generation;
            self.slots.set(i, Slot { generation: next_generation(g), value: None });
            i = i + 1;
        }
        proof {
            assert(n <= index_span());
        }
        let mut free: Vec<u32> = Vec::new();
        let mut k: usize = n;
        while k > 0
            invariant
                k <= n,
                n <= index_span(),
                free@ =~= Seq::new((n - k) as nat, |m: int| (n - 1 - m) as u32),
            decreases k,
        {
            k = k - 1;
            free.push(k as u32);
        }
        self.free = free;
        proof {
            let post = pre.clear_result();
            assert(self@.generations =~= post.generations);
            assert(self@.values =~= post.values);
            assert(self@.free =~= post.free);
            lemma_clear_wf(pre);
        }
    }
}

/// The invalid handle (raw 0) never resolves, whatever the registry holds.
pub proof fn lemma_invalid_handle_never_resolves<T>(reg: RegistryView<T>)
    ensures
        reg.lookup(0) is None,
{
}

/// After an insert, the returned handle resolves to the inserted value; it
/// did not resolve before; it is not the invalid handle; and every other
/// handle resolves exactly as before.
pub proof fn lemma_insert_then_lookup<T>(reg: RegistryView<T>, value: T)
    requires
        reg.wf(),
        reg.can_insert(),
    ensures
        ({
            let (post, raw) = reg.insert_result(value);
            &&& raw != 0
            &&& reg.lookup(raw) is None
            &&& post.lookup(raw) == Some(value)
            &&& forall|other: u64| other != raw ==> post.lookup(other) == reg.lookup(other)
        }),
{
    let (post, raw) = reg.insert_result(value);
    let index: u32 = if reg.free.len() > 0 {
        reg.free.last()
    } else {
        reg.values.len() as u32
    };
    let generation = if reg.free.len() > 0 {
        next_generation_spec(reg.generations[index as int])
    } else {
        1u32
    };
    lemma_raw_parts_round_trip(index, generation);
    if reg.free.len() > 0 {
        assert(reg.values[reg.free[reg.free.len() - 1] as int] is None);
    }
    assert forall|other: u64| other != raw implies post.lookup(other) == reg.lookup(other) by {
        if other != 0 && raw_index(other) == index {
            if raw_generation(other) == generation {
                lemma_raw_parts_round_trip(raw_index(other), raw_generation(other));
                assert(other as int == raw_generation(other) as int * index_span() + raw_index(
                    other,
                ) as int);
                assert(false);
            }
        }
    }
}

/// After a remove, the removed handle no longer resolves, the object it
/// resolved to is what came back, and every other handle resolves as before.
pub proof fn lemma_remove_then_lookup<T>(reg: RegistryView<T>, raw: u64)
    requires
        reg.wf(),
    ensures
        ({
            let (post, removed) = reg.remove_result(raw);
            &&& removed == reg.lookup(raw)
            &&& post.lookup(raw) is None
            &&& forall|other: u64| other != raw ==> post.lookup(other) == reg.lookup(other)
        }),
{
    let (post, removed) = reg.remove_result(raw);
    assert forall|other: u64| other != raw implies post.lookup(other) == reg.lookup(other) by {
        if reg.lookup(raw) is Some && other != 0 && raw_index(other) == raw_index(raw)
            && raw_generation(other) == raw_generation(raw) {
            lemma_raw_parts_round_trip(raw_index(other), raw_generation(other));
            lemma_raw_parts_round_trip(raw_index(raw), raw_generation(raw));
            assert(other as int == raw_generation(other) as int * index_span() + raw_index(
                other,
            ) as int);
            assert(raw as int == raw_generation(raw) as int * index_span() + raw_index(raw) as int);
        }
    }
}

/// A removed handle stays dead across the next insert: the slot it named is
/// reused only under an advanced generation, so the new object gets a
/// different handle and the stale one does not reach it.
pub proof fn lemma_stale_handle_stays_dead_after_reuse<T>(reg: RegistryView<T>, raw: u64, value: T)
    requires
        reg.wf(),
        reg.lookup(raw) is Some,
    ensures
        ({
            let removed = reg.remove_result(raw).0;
            let (post, fresh) = removed.insert_result(value);
            &&& fresh != raw
            &&& post.lookup(raw) is None
            &&& post.lookup(fresh) == Some(value)
        }),
{
    let removed = reg.remove_result(raw).0;
    lemma_remove_then_lookup(reg, raw);
    lemma_remove_wf(reg, raw);
    assert(removed.free.last() == raw_index(raw));
    let generation = next_generation_spec(raw_generation(raw));
    lemma_raw_parts_round_trip(raw_index(raw), generation);
    lemma_insert_then_lookup(removed, value);
}

/// Removing keeps the registry well formed.
pub proof fn lemma_remove_wf<T>(reg: RegistryView<T>, raw: u64)
    requires
        reg.wf(),
    ensures
        reg.remove_result(raw).0.wf(),
{
    let post = reg.remove_result(raw).0;
    if reg.lookup(raw) is Some {
        let index = raw_index(raw);
        assert forall|k1: int, k2: int|
            0 <= k1 < k2 < post.free.len() implies post.free[k1] != post.free[k2] by {
            if k2 == post.free.len() - 1 && reg.free[k1] == index {
                assert(reg.values[reg.free[k1] as int] is None);
            }
        }
        assert forall|k: int| 0 <= k < post.free.len() implies (#[trigger] post.values[post.free[k] as int]) is None by {
            if k < reg.free.len() {
                assert(reg.values[reg.free[k] as int] is None);
            }
        }
        assert forall|i: int|
            0 <= i < post.values.len() && (#[trigger] post.values[i]) is None implies exists|k: int|
            0 <= k < post.free.len() && post.free[k] as int == i by {
            if i == index as int {
                assert(post.free[post.free.len() - 1] as int == i);
            } else {
                assert(reg.values[i] is None);
                let k = choose|k: int| 0 <= k < reg.free.len() && reg.free[k] as int == i;
                assert(post.free[k] as int == i);
            }
        }
    }
}

/// Overwriting the object in a live slot keeps the registry well formed.
pub proof fn lemma_overwrite_live_value_keeps_wf<T>(reg: RegistryView<T>, index: int)
    requires
        0 <= index < reg.values.len(),
        reg.values[index] is Some,
    ensures
        forall|value: T| reg.wf() ==> (#[trigger] reg.with_value(index, Some(value))).wf(),
{
    assert forall|value: T| reg.wf() implies (#[trigger] reg.with_value(index, Some(value))).wf() by {
        let post = reg.with_value(index, Some(value));
        assert forall|k: int| 0 <= k < post.free.len() implies (#[trigger] post.values[post.free[k] as int]) is None by {
            assert(reg.values[reg.free[k] as int] is None);
        }
        assert forall|i: int|
            0 <= i < post.values.len() && (#[trigger] post.values[i]) is None implies exists|k: int|
            0 <= k < post.free.len() && post.free[k] as int == i by {
            assert(reg.values[i] is None);
        }
    }
}

/// Replacing the object a live handle resolves to changes what that handle
/// resolves to and nothing else.
pub proof fn lemma_replace_then_lookup<T>(reg: RegistryView<T>, raw: u64, value: T)
    requires
        reg.lookup(raw) is Some,
    ensures
        ({
            let post = reg.with_value(raw_index(raw) as int, Some(value));
            &&& post.lookup(raw) == Some(value)
            &&& forall|other: u64| other != raw ==> post.lookup(other) == reg.lookup(other)
        }),
{
    let post = reg.with_value(raw_index(raw) as int, Some(value));
    assert forall|other: u64| other != raw implies post.lookup(other) == reg.lookup(other) by {
        if other != 0 && raw_index(other) == raw_index(raw) && raw_generation(other)
            == raw_generation(raw) {
            lemma_raw_parts_round_trip(raw_index(other), raw_generation(other));
            lemma_raw_parts_round_trip(raw_index(raw), raw_generation(raw));
            assert(other as int == raw_generation(other) as int * index_span() + raw_index(
                other,
            ) as int);
            assert(raw as int == raw_generation(raw) as int * index_span() + raw_index(raw) as int);
        }
    }
}

/// Inserting keeps a registry well formed.
pub proof fn lemma_insert_wf<T>(reg: RegistryView<T>, value: T)
    requires
        reg.wf(),
        reg.can_insert(),
    ensures
        reg.insert_result(value).0.wf(),
{
    let post = reg.insert_result(value).0;
    if reg.free.len() > 0 {
        let index = reg.free.last();
        assert(reg.values[index as int] is None);
        assert forall|i: int|
            0 <= i < post.values.len() && (#[trigger] post.values[i]) is None implies exists|k: int|
            0 <= k < post.free.len() && post.free[k] as int == i by {
            assert(i != index as int);
            assert(reg.values[i] is None);
            let k = choose|k: int| 0 <= k < reg.free.len() && reg.free[k] as int == i;
            assert(k != reg.free.len() - 1);
            assert(post.free[k] as int == i);
        }
        assert forall|k: int| 0 <= k < post.free.len() implies (#[trigger] post.values[post.free[k] as int]) is None by {
            assert(reg.free[k] != index);
            assert(reg.values[reg.free[k] as int] is None);
        }
    } else {
        assert forall|i: int|
            0 <= i < post.values.len() && (#[trigger] post.values[i]) is None implies exists|k: int|
            0 <= k < post.free.len() && post.free[k] as int == i by {
            assert(i < reg.values.len());
            assert(reg.values[i] is None);
        }
        assert forall|k: int| 0 <= k < post.free.len() implies (#[trigger] post.values[post.free[k] as int]) is None by {
            assert(reg.values[reg.free[k] as int] is None);
        }
    }
}

/// A retired handle does not resolve.
pub proof fn lemma_retired_never_resolves<T>(reg: RegistryView<T>, raw: u64)
    requires
        reg.retired(raw),
    ensures
        reg.lookup(raw) is None,
{
}

/// Removing the object a handle resolves to retires the handle.
pub proof fn lemma_remove_retires<T>(reg: RegistryView<T>, raw: u64)
    requires
        reg.lookup(raw) is Some,
    ensures
        reg.remove_result(raw).0.retired(raw),
{
}

/// Clearing retires every handle that resolved, unless its slot's
/// generation wraps around.
pub proof fn lemma_clear_retires<T>(reg: RegistryView<T>, raw: u64)
    requires
        reg.wf(),
        reg.lookup(raw) is Some,
        reg.generations[raw_index(raw) as int] < u32::MAX,
    ensures
        reg.clear_result().retired(raw),
{
    let i = raw_index(raw) as int;
    assert(reg.clear_result().generations[i] == next_generation_spec(reg.generations[i]));
}

/// Whether the generation of `raw`'s slot never goes back during the run
/// `ops` from `reg`: it does not wrap around at any step.
pub open spec fn slot_never_wraps<T>(reg: RegistryView<T>, raw: u64, ops: Seq<RegistryOp<T>>) -> bool {
    forall|i: int|
        0 <= i < ops.len() ==> (#[trigger] reg.run_ops(ops.take(i))).generations[raw_index(raw) as int]
            <= reg.run_ops(ops.take(i + 1)).generations[raw_index(raw) as int]
}

/// One operation keeps a registry well formed and moves a slot's
/// generation on by at most one, without wrapping it when it is below the top.
proof fn lemma_op_generation<T>(reg: RegistryView<T>, index: int, op: RegistryOp<T>)
    requires
        reg.wf(),
        0 <= index < reg.values.len(),
        !(op is Remove) ==> reg.generations[index] < u32::MAX,
    ensures
        reg.apply_op(op).wf(),
        reg.apply_op(op).values.len() >= reg.values.len(),
        reg.generations[index] <= reg.apply_op(op).generations[index] <= reg.generations[index]
            + if op is Remove {
            0int
        } else {
            1int
        },
{
    match op {
        RegistryOp::Insert(v) => {
            if reg.can_insert() {
                lemma_insert_wf(reg, v);
            }
        },
        RegistryOp::Remove(other) => {
            lemma_remove_wf(reg, other);
        },
        RegistryOp::Clear => {
            lemma_clear_wf(reg);
        },
    }
}

/// One operation keeps a retired handle retired, as long as it does not
/// move the generation of the handle's slot back.
proof fn lemma_op_keeps_retired<T>(reg: RegistryView<T>, raw: u64, op: RegistryOp<T>)
    requires
        reg.wf(),
        reg.retired(raw),
        reg.apply_op(op).generations[raw_index(raw) as int] >= reg.generations[raw_index(
            raw,
        ) as int],
    ensures
        reg.apply_op(op).wf(),
        reg.apply_op(op).retired(raw),
{
    let idx = raw_index(raw) as int;
    match op {
        RegistryOp::Insert(v) => {
            if reg.can_insert() {
                lemma_insert_wf(reg, v);
                if reg.free.len() > 0 && reg.free.last() as int == idx {
                    assert(reg.generations[idx] < u32::MAX);
                }
            }
        },
        RegistryOp::Remove(other) => {
            lemma_remove_wf(reg, other);
        },
        RegistryOp::Clear => {
            lemma_clear_wf(reg);
            assert(reg.clear_result().generations[idx] == next_generation_spec(reg.generations[idx]));
            assert(reg.generations[idx] < u32::MAX);
        },
    }
}

/// The insert count of a prefix of a run is at most that of the run.
proof fn lemma_advances_prefix<T>(ops: Seq<RegistryOp<T>>, i: int)
    requires
        0 <= i <= ops.len(),
    ensures
        generation_advances(ops.take(i)) <= generation_advances(ops),
    decreases ops.len(),
{
    if i == ops.len() {
        assert(ops.take(i) =~= ops);
    } else {
        assert(ops.take(i) =~= ops.drop_last().take(i));
        lemma_advances_prefix(ops.drop_last(), i);
    }
}

/// A slot's generation that starts at most `advances` below the top is
/// never moved back by a run of that many inserts and clears.
proof fn lemma_run_generation<T>(reg: RegistryView<T>, index: int, ops: Seq<RegistryOp<T>>)
    requires
        reg.wf(),
        0 <= index < reg.values.len(),
        reg.generations[index] + generation_advances(ops) <= u32::MAX,
    ensures
        reg.run_ops(ops).wf(),
        index < reg.run_ops(ops).values.len(),
        reg.generations[index] <= reg.run_ops(ops).generations[index] <= reg.generations[index]
            + generation_advances(ops),
    decreases ops.len(),
{
    if ops.len() > 0 {
        lemma_run_generation(reg, index, ops.drop_last());
        lemma_op_generation(reg.run_ops(ops.drop_last()), index, ops.last());
    }
}

/// A run with fewer inserts and clears than the room left above a slot's
/// generation never wraps that slot's generation around.
pub proof fn lemma_bounded_run_never_wraps<T>(reg: RegistryView<T>, raw: u64, ops: Seq<RegistryOp<T>>)
    requires
        reg.wf(),
        raw_index(raw) < reg.values.len(),
        reg.generations[raw_index(raw) as int] + generation_advances(ops) <= u32::MAX,
    ensures
        slot_never_wraps(reg, raw, ops),
{
    let idx = raw_index(raw) as int;
    assert forall|i: int| 0 <= i < ops.len() implies (#[trigger] reg.run_ops(ops.take(i))).generations[idx]
        <= reg.run_ops(ops.take(i + 1)).generations[idx] by {
        lemma_advances_prefix(ops, i + 1);
        assert(ops.take(i + 1).drop_last() =~= ops.take(i));
        assert(ops.take(i + 1).last() == ops[i]);
        lemma_run_generation(reg, idx, ops.take(i));
        lemma_op_generation(reg.run_ops(ops.take(i)), idx, ops[i]);
    }
}

/// A run of operations keeps a retired handle retired while its slot's
/// generation does not wrap around.
proof fn lemma_run_keeps_retired<T>(reg: RegistryView<T>, raw: u64, ops: Seq<RegistryOp<T>>)
    requires
        reg.wf(),
        reg.retired(raw),
        slot_never_wraps(reg, raw, ops),
    ensures
        reg.run_ops(ops).wf(),
        reg.run_ops(ops).retired(raw),
    decreases ops.len(),
{
    if ops.len() > 0 {
        let n = ops.len() as int;
        let front = ops.drop_last();
        assert forall|i: int| 0 <= i < front.len() implies (#[trigger] reg.run_ops(front.take(i))).generations[raw_index(raw) as int]
            <= reg.run_ops(front.take(i + 1)).generations[raw_index(raw) as int] by {
            assert(front.take(i) =~= ops.take(i));
            assert(front.take(i + 1) =~= ops.take(i + 1));
            assert(reg.run_ops(ops.take(i)).generations[raw_index(raw) as int]
                <= reg.run_ops(ops.take(i + 1)).generations[raw_index(raw) as int]);
        }
        lemma_run_keeps_retired(reg, raw, front);
        assert(ops.take(n - 1) =~= front);
        assert(ops.take(n) =~= ops);
        assert(reg.run_ops(ops.take(n - 1)).generations[raw_index(raw) as int]
            <= reg.run_ops(ops.take(n)).generations[raw_index(raw) as int]);
        lemma_op_keeps_retired(reg.run_ops(front), raw, ops.last());
    }
}

/// Runs that never wrap a slot's generation keep not wrapping it on their prefixes.
proof fn lemma_never_wraps_prefix<T>(reg: RegistryView<T>, raw: u64, ops: Seq<RegistryOp<T>>, k: int)
    requires
        slot_never_wraps(reg, raw, ops),
        0 <= k <= ops.len(),
    ensures
        slot_never_wraps(reg, raw, ops.take(k)),
{
    let pre = ops.take(k);
    assert forall|i: int| 0 <= i < pre.len() implies (#[trigger] reg.run_ops(pre.take(i))).generations[raw_index(raw) as int]
        <= reg.run_ops(pre.take(i + 1)).generations[raw_index(raw) as int] by {
        assert(pre.take(i) =~= ops.take(i));
        assert(pre.take(i + 1) =~= ops.take(i + 1));
        assert(reg.run_ops(ops.take(i)).generations[raw_index(raw) as int]
            <= reg.run_ops(ops.take(i + 1)).generations[raw_index(raw) as int]);
    }
}

/// A retired handle never resolves again, whatever inserts, removes and
/// clears follow, as long as its slot's generation does not wrap around:
/// after every prefix of the run it resolves to nothing, and no insert of the
/// run hands it out.
pub proof fn lemma_retired_handle_stays_dead<T>(reg: RegistryView<T>, raw: u64, ops: Seq<RegistryOp<T>>)
    requires
        reg.wf(),
        reg.retired(raw),
        slot_never_wraps(reg, raw, ops),
    ensures
        forall|i: int| 0 <= i <= ops.len() ==> (#[trigger] reg.run_ops(ops.take(i))).lookup(raw) is None,
        forall|i: int|
            0 <= i < ops.len() ==> match #[trigger] ops[i] {
                RegistryOp::Insert(v) => reg.run_ops(ops.take(i)).can_insert() ==> reg.run_ops(
                    ops.take(i),
                ).insert_result(v).1 != raw,
                _ => true,
            },
{
    assert forall|i: int| 0 <= i <= ops.len() implies (#[trigger] reg.run_ops(ops.take(i))).lookup(raw) is None by {
        lemma_never_wraps_prefix(reg, raw, ops, i);
        lemma_run_keeps_retired(reg, raw, ops.take(i));
    }
    assert forall|i: int| 0 <= i < ops.len() implies match #[trigger] ops[i] {
        RegistryOp::Insert(v) => reg.run_ops(ops.take(i)).can_insert() ==> reg.run_ops(
            ops.take(i),
        ).insert_result(v).1 != raw,
        _ => true,
    } by {
        if let RegistryOp::Insert(v) = ops[i] {
            let state = reg.run_ops(ops.take(i));
            lemma_never_wraps_prefix(reg, raw, ops, i);
            lemma_run_keeps_retired(reg, raw, ops.take(i));
            if state.can_insert() {
                assert(ops.take(i + 1).drop_last() =~= ops.take(i));
                assert(ops.take(i + 1).last() == ops[i]);
                assert(reg.run_ops(ops.take(i + 1)) == state.insert_result(v).0);
                lemma_insert_then_lookup(state, v);
                lemma_never_wraps_prefix(reg, raw, ops, i + 1);
                lemma_run_keeps_retired(reg, raw, ops.take(i + 1));
            }
        }
    }
}

/// A removed handle never reaches an object stored later: after the remove,
/// it resolves to nothing and is never handed out again by any run of
/// inserts, removes and clears that does not wrap its slot's generation.
pub proof fn lemma_removed_handle_stays_dead<T>(reg: RegistryView<T>, raw: u64, ops: Seq<RegistryOp<T>>)
    requires
        reg.wf(),
        reg.lookup(raw) is Some,
        slot_never_wraps(reg.remove_result(raw).0, raw, ops),
    ensures
        ({
            let removed = reg.remove_result(raw).0;
            &&& forall|i: int|
                0 <= i <= ops.len() ==> (#[trigger] removed.run_ops(ops.take(i))).lookup(raw) is None
            &&& forall|i: int|
                0 <= i < ops.len() ==> match #[trigger] ops[i] {
                    RegistryOp::Insert(v) => removed.run_ops(ops.take(i)).can_insert()
                        ==> removed.run_ops(ops.take(i)).insert_result(v).1 != raw,
                    _ => true,
                }
        }),
{
    lemma_remove_wf(reg, raw);
    lemma_retired_handle_stays_dead(reg.remove_result(raw).0, raw, ops);
}

/// Clearing keeps a registry well formed.
pub proof fn lemma_clear_wf<T>(reg: RegistryView<T>)
    requires
        reg.wf(),
    ensures
        reg.clear_result().wf(),
{
    let post = reg.clear_result();
    let n = reg.values.len();
    assert forall|i: int|
        0 <= i < post.values.len() && (#[trigger] post.values[i]) is None implies exists|k: int|
        0 <= k < post.free.len() && post.free[k] as int == i by {
        assert(post.free[n - 1 - i] as int == i);
    }
    assert forall|k: int| 0 <= k < post.free.len() implies (#[trigger] post.values[post.free[k] as int]) is None by {
        assert(post.free[k] as int == n - 1 - k);
    }
}

/// Clearing leaves a registry in which no handle resolves.
pub proof fn lemma_cleared_registry_resolves_nothing<T>(reg: RegistryView<T>, raw: u64)
    requires
        reg.wf(),
    ensures
        reg.clear_result().lookup(raw) is None,
        reg.clear_result().wf(),
        reg.clear_result().live_count() == 0,
{
    lemma_clear_wf(reg);
    lemma_occupied_count_zero(reg.clear_result().values);
}

/// The handles that resolve in a registry.
pub open spec fn live_handles<T>(reg: RegistryView<T>) -> Set<u64> {
    Set::new(|raw: u64| reg.lookup(raw) is Some)
}

/// The handles of the occupied slots among the first `n`.
spec fn slot_handles<T>(reg: RegistryView<T>, n: nat) -> Set<u64>
    decreases n,
{
    if n == 0 {
        Set::empty()
    } else {
        let prev = slot_handles(reg, (n - 1) as nat);
        if reg.values[n - 1] is Some {
            prev.insert(raw_from_parts((n - 1) as u32, reg.generations[n - 1]))
        } else {
            prev
        }
    }
}

proof fn lemma_slot_handles<T>(reg: RegistryView<T>, n: nat)
    requires
        reg.wf(),
        n <= reg.values.len(),
    ensures
        slot_handles(reg, n).finite(),
        slot_handles(reg, n).len() == occupied_count(reg.values.subrange(0, n as int)),
        forall|raw: u64|
            #[trigger] slot_handles(reg, n).contains(raw) <==> (raw != 0 && raw_index(raw) < n
                && reg.generations[raw_index(raw) as int] == raw_generation(raw)
                && reg.values[raw_index(raw) as int] is Some),
    decreases n,
{
    if n > 0 {
        let m = (n - 1) as nat;
        lemma_slot_handles(reg, m);
        assert(reg.values.subrange(0, n as int).drop_last() =~= reg.values.subrange(0, m as int));
        let i = m as u32;
        let g = reg.generations[m as int];
        lemma_raw_parts_round_trip(i, g);
        let h = raw_from_parts(i, g);
        assert(h != 0);
        assert(!slot_handles(reg, m).contains(h));
        assert forall|raw: u64|
            #[trigger] slot_handles(reg, n).contains(raw) <==> (raw != 0 && raw_index(raw) < n
                && reg.generations[raw_index(raw) as int] == raw_generation(raw)
                && reg.values[raw_index(raw) as int] is Some) by {
            if raw != 0 && raw_index(raw) == m && reg.generations[m as int] == raw_generation(raw) {
                assert(raw as int == raw_generation(raw) as int * index_span() + raw_index(raw) as int);
                assert(raw == h);
            }
        }
    }
}

/// The number of live objects is the number of handles that resolve.
pub proof fn lemma_live_count_counts_live_handles<T>(reg: RegistryView<T>)
    requires
        reg.wf(),
    ensures
        live_handles(reg).finite(),
        live_handles(reg).len() == reg.live_count(),
{
    let n = reg.values.len();
    lemma_slot_handles(reg, n);
    assert(reg.values.subrange(0, n as int) =~= reg.values);
    assert(live_handles(reg) =~= slot_handles(reg, n));
}

/// A registry has no live object exactly when no handle resolves.
pub proof fn lemma_live_count_zero_iff_nothing_resolves<T>(reg: RegistryView<T>)
    requires
        reg.wf(),
    ensures
        reg.live_count() == 0 <==> forall|raw: u64| #[trigger] reg.lookup(raw) is None,
{
    lemma_occupied_count_zero(reg.values);
    if reg.live_count() != 0 {
        let i = choose|i: int| 0 <= i < reg.values.len() && reg.values[i] is Some;
        assert(reg.generations[i] >= 1);
        let raw = raw_from_parts(i as u32, reg.generations[i]);
        lemma_raw_parts_round_trip(i as u32, reg.generations[i]);
        assert(reg.lookup(raw) is Some);
    }
}

/// The live count is zero exactly when every slot is empty.
pub proof fn lemma_occupied_count_zero<T>(values: Seq<Option<T>>)
    ensures
        occupied_count(values) == 0 <==> forall|i: int| 0 <= i < values.len() ==> values[i] is None,
    decreases values.len(),
{
    if values.len() > 0 {
        lemma_occupied_count_zero(values.drop_last());
        if occupied_count(values) == 0 {
            assert forall|i: int| 0 <= i < values.len() implies values[i] is None by {
                if i < values.len() - 1 {
                    assert(values.drop_last()[i] == values[i]);
                }
            }
        } else {
            if values.last() is None {
                let i = choose|i: int|
                    0 <= i < values.drop_last().len() && values.drop_last()[i] is Some;
                assert(values[i] is Some);
            }
        }
    }
}

} // verus!
