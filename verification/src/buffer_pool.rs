//! Bookkeeping for a pool of GPU buffers that is refilled every frame.
//!
//! The pool knows, for each slot, how large the underlying buffer is and how
//! many bytes of it the current frame uses. It decides whether an upload can
//! go into the buffer that is already there or needs a larger one; creating
//! buffers and copying bytes is done by the embedding code, which keeps its
//! buffers in the same order as the pool keeps its slots.

use vstd::prelude::*;

verus! {

/// Buffers are sized in whole blocks of this many bytes.
pub const BLOCK: u64 = 256;

/// One slot of the pool.
#[derive(Clone, Copy, Debug, PartialEq, Eq, Structural)]
pub struct PoolSlot {
    /// Size of the underlying buffer in bytes.
    pub capacity: u64,
    /// Bytes of the buffer that hold data of the current frame.
    pub len: u64,
}

/// What the embedding code has to do for one upload.
#[derive(Clone, Copy, Debug, PartialEq, Eq, Structural)]
pub struct UploadAction {
    /// The slot that the data goes into.
    pub slot: usize,
    /// `Some(capacity)` where a buffer of that size has to be created for the
    /// slot first, replacing the buffer that the slot had, if any. `None`
    /// where the data is written into the buffer that is already there.
    pub allocate: Option<u64>,
}

/// The size of the buffer that is created for `size` bytes of data: `size`
/// rounded up to whole blocks, and one block for no data. Where rounding up
/// would exceed the largest buffer size, it is `size` itself.
pub open spec fn capacity_for(size: u64) -> u64 {
    if size == 0 {
        BLOCK
    } else if size > u64::MAX - (BLOCK - 1) {
        size
    } else {
        (((size + (BLOCK - 1)) / BLOCK as int) * BLOCK) as u64
    }
}

/// The pool as a mathematical value.
pub struct PoolView {
    /// The slots for which a buffer exists, in order.
    pub slots: Seq<PoolSlot>,
    /// How many of the slots the current frame has filled.
    pub used: nat,
}

impl PoolView {
    /// The pool without any buffer.
    pub open spec fn empty() -> PoolView {
        PoolView { slots: Seq::empty(), used: 0 }
    }

    /// No slot is in use that has no buffer.
    pub open spec fn wf(self) -> bool {
        self.used <= self.slots.len()
    }

    /// The pool at the start of a frame: no slot is in use, every buffer is
    /// kept.
    pub open spec fn clear(self) -> PoolView {
        PoolView { used: 0, ..self }
    }

    /// Whether the next upload of `size` bytes needs a new buffer: the next
    /// slot has none yet, or one that is too small.
    pub open spec fn needs_allocation(self, size: u64) -> bool {
        self.used >= self.slots.len() || self.slots[self.used as int].capacity < size
    }

    /// What has to be done for the next upload of `size` bytes.
    pub open spec fn action(self, size: u64) -> UploadAction {
        UploadAction {
            slot: self.used as usize,
            allocate: if self.needs_allocation(size) {
                Some(capacity_for(size))
            } else {
                None
            },
        }
    }

    /// The pool after `size` bytes were uploaded into the next slot.
    pub open spec fn upload(self, size: u64) -> PoolView {
        let capacity = if self.needs_allocation(size) {
            capacity_for(size)
        } else {
            self.slots[self.used as int].capacity
        };
        let slot = PoolSlot { capacity, len: size };
        PoolView {
            slots: if self.used < self.slots.len() {
                self.slots.update(self.used as int, slot)
            } else {
                self.slots.push(slot)
            },
            used: self.used + 1,
        }
    }

    /// The pool after one upload for each size of `sizes`, first to last.
    pub open spec fn upload_all(self, sizes: Seq<u64>) -> PoolView
        decreases sizes.len(),
    {
        if sizes.len() == 0 {
            self
        } else {
            self.upload_all(sizes.drop_last()).upload(sizes.last())
        }
    }

    /// How many new buffers the uploads of `sizes`, first to last, need.
    pub open spec fn allocations(self, sizes: Seq<u64>) -> nat
        decreases sizes.len(),
    {
        if sizes.len() == 0 {
            0
        } else {
            self.allocations(sizes.drop_last()) + if self.upload_all(
                sizes.drop_last(),
            ).needs_allocation(sizes.last()) {
                1nat
            } else {
                0nat
            }
        }
    }
}

/// Sizes and fill levels of the buffers of a pool.
pub struct BufferPool {
    slots: Vec<PoolSlot>,
    used: usize,
}

impl View for BufferPool {
    type V = PoolView;

    closed spec fn view(&self) -> PoolView {
        PoolView { slots: self.slots@, used: self.used as nat }
    }
}

/// Computes [`capacity_for`].
pub fn buffer_capacity(size: u64) -> (capacity: u64)
    ensures
        capacity == capacity_for(size),
        capacity >= size,
        capacity >= 1,
{
    if size == 0 {
        BLOCK
    } else if size > u64::MAX - (BLOCK - 1) {
        size
    } else {
        ((size + (BLOCK - 1)) / BLOCK) * BLOCK
    }
}

impl BufferPool {
    #[verifier::type_invariant]
    spec fn well_formed(self) -> bool {
        self.used <= self.slots@.len()
    }

    /// Creates a pool without any buffer.
    pub fn new() -> (pool: BufferPool)
        ensures
            pool@ == PoolView::empty(),
    {
        BufferPool { slots: Vec::new(), used: 0 }
    }

    /// Starts a frame: no slot is in use any more, every buffer is kept.
    pub fn clear(&mut self)
        ensures
            final(self)@ == old(self)@.clear(),
    {
        self.used = 0;
    }

    /// The number of slots that the current frame has filled.
    pub fn len(&self) -> (n: usize)
        ensures
            n == self@.used,
            self@.wf(),
    {
        proof {
            use_type_invariant(self);
        }
        self.used
    }

    /// The slot at `index`, if the current frame has filled it.
    pub fn get(&self, index: usize) -> (slot: Option<PoolSlot>)
        ensures
            slot == if index < self@.used {
                Some(self@.slots[index as int])
            } else {
                None
            },
    {
        proof {
            use_type_invariant(self);
        }
        if index < self.used {
            Some(self.slots[index])
        } else {
            None
        }
    }

    /// Takes the next slot for `size` bytes of data and says what has to be
    /// done for it.
    ///
    /// The buffer of the slot is reused where it holds `size` bytes;
    /// otherwise a buffer of [`capacity_for`]`(size)` bytes takes its place.
    /// The buffers of all other slots stay as they are.
    pub fn upload(&mut self, size: u64) -> (action: UploadAction)
        ensures
            action == old(self)@.action(size),
            final(self)@ == old(self)@.upload(size),
            final(self)@.wf(),
    {
        proof {
            use_type_invariant(&*self);
        }
        let index: usize = self.used;
        self.used = 0;
        let mut slots: Vec<PoolSlot> = Vec::new();
        std::mem::swap(&mut slots, &mut self.slots);
        let allocate: Option<u64> = if index < slots.len() {
            let capacity: u64 = slots[index].capacity;
            if capacity < size {
                let grown: u64 = buffer_capacity(size);
                slots.set(index, PoolSlot { capacity: grown, len: size });
                Some(grown)
            } else {
                slots.set(index, PoolSlot { capacity, len: size });
                None
            }
        } else {
            let grown: u64 = buffer_capacity(size);
            slots.push(PoolSlot { capacity: grown, len: size });
            Some(grown)
        };
        assert(index < slots.len());
        self.slots = slots;
        self.used = index + 1;
        UploadAction { slot: index, allocate }
    }
}

proof fn lemma_capacity_covers(size: u64)
    ensures
        capacity_for(size) >= size,
{
}

/// What a run of uploads does to a pool: the slots before the first one in
/// use stay untouched, each upload fills the next slot with a buffer that
/// holds its data, the slots behind the last upload stay untouched, and no
/// buffer gets smaller.
proof fn lemma_upload_all_shape(pool: PoolView, sizes: Seq<u64>)
    requires
        pool.wf(),
    ensures
        ({
            let after = pool.upload_all(sizes);
            &&& after.wf()
            &&& after.used == pool.used + sizes.len()
            &&& after.slots.len() == if pool.slots.len() >= after.used {
                pool.slots.len()
            } else {
                after.used
            }
            &&& forall|j: int|
                0 <= j < pool.slots.len() && !(pool.used <= j < after.used)
                    ==> #[trigger] after.slots[j] == pool.slots[j]
            &&& forall|j: int|
                0 <= j < pool.slots.len() ==> (#[trigger] after.slots[j]).capacity
                    >= pool.slots[j].capacity
            &&& forall|i: int|
                0 <= i < sizes.len() ==> (#[trigger] after.slots[pool.used + i]).len == sizes[i]
                    && after.slots[pool.used + i].capacity >= sizes[i]
        }),
    decreases sizes.len(),
{
    if sizes.len() > 0 {
        lemma_upload_all_shape(pool, sizes.drop_last());
        lemma_capacity_covers(sizes.last());
        let before = pool.upload_all(sizes.drop_last());
        let after = pool.upload_all(sizes);
        assert(after == before.upload(sizes.last()));
        assert forall|i: int| 0 <= i < sizes.len() implies (#[trigger] after.slots[pool.used
            + i]).len == sizes[i] && after.slots[pool.used + i].capacity >= sizes[i] by {
            if i < sizes.len() - 1 {
                assert(sizes.drop_last()[i] == sizes[i]);
                assert(after.slots[pool.used + i] == before.slots[pool.used + i]);
            }
        }
    }
}

/// Uploads into slots whose buffers already hold the data need no new buffer
/// and leave every buffer as it is.
proof fn lemma_upload_all_reuses(pool: PoolView, sizes: Seq<u64>)
    requires
        pool.used + sizes.len() <= pool.slots.len(),
        forall|i: int|
            0 <= i < sizes.len() ==> (#[trigger] pool.slots[pool.used + i]).capacity >= sizes[i],
    ensures
        pool.allocations(sizes) == 0,
        pool.upload_all(sizes).used == pool.used + sizes.len(),
        pool.upload_all(sizes).slots.len() == pool.slots.len(),
        forall|j: int|
            0 <= j < pool.slots.len() ==> (#[trigger] pool.upload_all(sizes).slots[j]).capacity
                == pool.slots[j].capacity,
        forall|j: int|
            0 <= j < pool.slots.len() && !(pool.used <= j < pool.used + sizes.len())
                ==> #[trigger] pool.upload_all(sizes).slots[j] == pool.slots[j],
        forall|i: int|
            0 <= i < sizes.len() ==> (#[trigger] pool.upload_all(sizes).slots[pool.used + i]).len
                == sizes[i],
    decreases sizes.len(),
{
    if sizes.len() > 0 {
        let shorter = sizes.drop_last();
        assert forall|i: int| 0 <= i < shorter.len() implies (#[trigger] pool.slots[pool.used
            + i]).capacity >= shorter[i] by {
            assert(shorter[i] == sizes[i]);
        }
        lemma_upload_all_reuses(pool, shorter);
        let before = pool.upload_all(shorter);
        let last = sizes.len() - 1;
        assert(before.slots[pool.used + last].capacity == pool.slots[pool.used + last].capacity);
        assert(!before.needs_allocation(sizes.last()));
        let after = pool.upload_all(sizes);
        assert(after == before.upload(sizes.last()));
        assert forall|i: int| 0 <= i < sizes.len() implies (#[trigger] after.slots[pool.used
            + i]).len == sizes[i] by {
            if i < last {
                assert(shorter[i] == sizes[i]);
                assert(after.slots[pool.used + i] == before.slots[pool.used + i]);
            }
        }
    }
}

/// After a frame that clears the pool and uploads data of the sizes `sizes`,
/// the pool has one slot in use for each upload, in order, and the buffer of
/// each holds the data uploaded into it.
pub proof fn lemma_frame_fills_slots(pool: PoolView, sizes: Seq<u64>)
    requires
        pool.wf(),
    ensures
        ({
            let after = pool.clear().upload_all(sizes);
            &&& after.wf()
            &&& after.used == sizes.len()
            &&& forall|i: int|
                0 <= i < sizes.len() ==> (#[trigger] after.slots[i]).len == sizes[i]
                    && after.slots[i].capacity >= sizes[i]
        }),
{
    lemma_upload_all_shape(pool.clear(), sizes);
    let after = pool.clear().upload_all(sizes);
    assert forall|i: int| 0 <= i < sizes.len() implies (#[trigger] after.slots[i]).len == sizes[i]
        && after.slots[i].capacity >= sizes[i] by {
        assert(after.slots[0 + i].len == sizes[i]);
    }
}

/// A second frame that uploads data of the same sizes as the frame before it
/// creates no buffer: every upload goes into the buffer that is there, and
/// the pool ends the frame in the state in which the first frame left it.
pub proof fn lemma_same_sizes_allocate_nothing(pool: PoolView, sizes: Seq<u64>)
    requires
        pool.wf(),
    ensures
        ({
            let first = pool.clear().upload_all(sizes);
            &&& first.clear().allocations(sizes) == 0
            &&& first.clear().upload_all(sizes) == first
        }),
{
    lemma_upload_all_shape(pool.clear(), sizes);
    let first = pool.clear().upload_all(sizes);
    let again = first.clear();
    assert forall|i: int| 0 <= i < sizes.len() implies (#[trigger] again.slots[again.used
        + i]).capacity >= sizes[i] by {
        assert(first.slots[0 + i].capacity >= sizes[i]);
    }
    lemma_upload_all_reuses(again, sizes);
    let second = again.upload_all(sizes);
    assert forall|j: int| 0 <= j < first.slots.len() implies second.slots[j] == first.slots[j] by {
        if j < sizes.len() {
            assert(second.slots[again.used + j].len == sizes[j]);
            assert(first.slots[0 + j].len == sizes[j]);
            assert(second.slots[j].capacity == again.slots[j].capacity);
        }
    }
    assert(second.slots =~= first.slots);
}

/// No run of uploads makes a buffer smaller or removes one, and clearing the
/// pool changes no buffer.
pub proof fn lemma_capacity_never_shrinks(pool: PoolView, sizes: Seq<u64>)
    requires
        pool.wf(),
    ensures
        pool.clear().slots == pool.slots,
        pool.upload_all(sizes).slots.len() >= pool.slots.len(),
        forall|j: int|
            0 <= j < pool.slots.len() ==> (#[trigger] pool.upload_all(sizes).slots[j]).capacity
                >= pool.slots[j].capacity,
{
    lemma_upload_all_shape(pool, sizes);
}

} // verus!
