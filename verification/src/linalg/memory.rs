//! Device buffer table: a capacity-bounded array of slots, each either empty
//! or holding one matrix buffer, addressed by stable integer handles.
//!
//! A handle is the slot's index.  Handles stay valid for the lifetime of the
//! occupying buffer; a slot is reused only after an explicit free.  The table
//! only ever grows, so growth never invalidates a handle.
//!
//! The model of a table is a sequence of optional [`MatrixView`]s.  The spec
//! functions [`mem_store`], [`mem_free`] and [`mem_get`] describe what each
//! operation does to that model; the laws at the end of this module relate
//! them (store-then-retrieve, free-then-retrieve, growth, slot reuse).

use vstd::prelude::*;

use crate::linalg::err::LAError;
use crate::linalg::matrix::{Matrix, MatrixView};

verus! {

/// Slot capacity of a freshly initialized buffer table.
pub const INIT_MEMORY_CAPACITY: usize = 3;

/// Number of slots added when an allocation finds the table full.
pub const MEMORY_GROWTH_STEP: usize = 3;

/// All occupied slots hold well-formed matrices.
pub open spec fn mem_slots_wf(mem: Seq<Option<MatrixView>>) -> bool {
    forall|i: int| 0 <= i < mem.len() ==> (#[trigger] mem[i] matches Some(m) ==> m.wf())
}

/// The least free slot index at or after `i`, or the table length when every
/// slot from `i` on is occupied.
pub open spec fn first_free_from(mem: Seq<Option<MatrixView>>, i: int) -> int
    decreases mem.len() - i when 0 <= i <= mem.len()
{
    if i >= mem.len() {
        mem.len() as int
    } else if mem[i] is None {
        i
    } else {
        first_free_from(mem, i + 1)
    }
}

/// The slot an allocation will use: the least free index, or the table length
/// (after growth) when the table is full.
pub open spec fn mem_store_handle(mem: Seq<Option<MatrixView>>) -> int {
    first_free_from(mem, 0)
}

/// The table after growing, which happens exactly when no slot is free.
pub open spec fn mem_grown(mem: Seq<Option<MatrixView>>) -> Seq<Option<MatrixView>> {
    if mem_store_handle(mem) == mem.len() {
        mem + Seq::new(MEMORY_GROWTH_STEP as nat, |i: int| None)
    } else {
        mem
    }
}

/// The table after storing `m`: grown if it was full, with the store handle's
/// slot overwritten.
pub open spec fn mem_store(mem: Seq<Option<MatrixView>>, m: MatrixView) -> Seq<Option<MatrixView>> {
    mem_grown(mem).update(mem_store_handle(mem), Some(m))
}

/// The table after freeing handle `h`.
pub open spec fn mem_free(mem: Seq<Option<MatrixView>>, h: int) -> Seq<Option<MatrixView>> {
    mem.update(h, None)
}

/// What retrieving handle `h` observes: the slot's contents for an in-range
/// handle, nothing for an out-of-range one.
pub open spec fn mem_get(mem: Seq<Option<MatrixView>>, h: int) -> Option<MatrixView> {
    if 0 <= h < mem.len() {
        mem[h]
    } else {
        None
    }
}

/// The number of occupied slots.
pub open spec fn occupied_count(mem: Seq<Option<MatrixView>>) -> nat
    decreases mem.len(),
{
    if mem.len() == 0 {
        0
    } else {
        occupied_count(mem.drop_last()) + if mem.last() is Some {
            1nat
        } else {
            0nat
        }
    }
}

/// `first_free_from` lands on a free slot (or the length), skipping only
/// occupied slots.
pub proof fn lemma_first_free_from(mem: Seq<Option<MatrixView>>, i: int)
    requires
        0 <= i <= mem.len(),
    ensures
        i <= first_free_from(mem, i) <= mem.len(),
        first_free_from(mem, i) < mem.len() ==> mem[first_free_from(mem, i)] is None,
        forall|j: int| i <= j < first_free_from(mem, i) ==> mem[j] is Some,
    decreases mem.len() - i,
{
    if i < mem.len() && !(mem[i] is None) {
        lemma_first_free_from(mem, i + 1);
    }
}

/// Occupied slots up to `i` leave the least free index unchanged.
pub proof fn lemma_first_free_skip(mem: Seq<Option<MatrixView>>, k: int, i: int)
    requires
        0 <= k <= i <= mem.len(),
        forall|j: int| k <= j < i ==> mem[j] is Some,
    ensures
        first_free_from(mem, k) == first_free_from(mem, i),
    decreases i - k,
{
    if k < i {
        lemma_first_free_skip(mem, k + 1, i);
    }
}

/// A free slot whose predecessors are all occupied is exactly the store
/// handle.
pub proof fn lemma_store_handle_is(mem: Seq<Option<MatrixView>>, i: int)
    requires
        0 <= i <= mem.len(),
        i < mem.len() ==> mem[i] is None,
        forall|j: int| 0 <= j < i ==> mem[j] is Some,
    ensures
        mem_store_handle(mem) == i,
{
    lemma_first_free_skip(mem, 0, i);
}

/// Device buffer table.  Each slot owns at most one buffer; the handle of a
/// buffer is its slot index.
pub struct MemoryHandler {
    slots: Vec<Option<Matrix>>,
}

impl View for MemoryHandler {
    type V = Seq<Option<MatrixView>>;

    closed spec fn view(&self) -> Seq<Option<MatrixView>> {
        Seq::new(
            self.slots@.len(),
            |i: int|
                match self.slots@[i] {
                    Some(m) => Some(m@),
                    None => None,
                },
        )
    }
}

impl MemoryHandler {
    /// All buffers held by the table are well-formed.
    pub open spec fn wf(&self) -> bool {
        mem_slots_wf(self@)
    }

    /// A fresh table of `capacity` empty slots.
    pub fn new(capacity: usize) -> (h: MemoryHandler)
        ensures
            h@.len() == capacity,
            forall|i: int| 0 <= i < capacity ==> h@[i] is None,
            h.wf(),
    {
        let mut slots: Vec<Option<Matrix>> = Vec::new();
        let mut i: usize = 0;
        while i < capacity
            invariant
                i <= capacity,
                slots@.len() == i,
                forall|k: int| 0 <= k < i ==> slots@[k] is None,
            decreases capacity - i,
        {
            slots.push(None);
            i += 1;
        }
        MemoryHandler { slots }
    }

    /// The current slot capacity.
    pub fn capacity(&self) -> (c: usize)
        ensures
            c == self@.len(),
    {
        self.slots.len()
    }

    /// The number of slots currently holding a buffer.
    pub fn n_occupied(&self) -> (n: usize)
        ensures
            n == occupied_count(self@),
    {
        let mut n: usize = 0;
        let mut i: usize = 0;
        while i < self.slots.len()
            invariant
                i <= self@.len(),
                n == occupied_count(self@.subrange(0, i as int)),
                n <= i,
            decreases self@.len() - i,
        {
            let occupied = match &self.slots[i] {
                Some(_) => true,
                None => false,
            };
            proof {
                assert(self@.subrange(0, i + 1).drop_last() =~= self@.subrange(0, i as int));
                assert(self@.subrange(0, i + 1).last() == self@[i as int]);
            }
            if occupied {
                n += 1;
            }
            i += 1;
        }
        proof {
            assert(self@.subrange(0, self@.len() as int) =~= self@);
        }
        n
    }

    /// Allocates a zero-filled buffer for a `rows` by `cols` matrix in the
    /// least free slot, growing the table by [`MEMORY_GROWTH_STEP`] when no
    /// slot is free, and returns the slot's index as the handle.  Fails only
    /// when the requested element count cannot be addressed.
    pub fn allocate(&mut self, rows: usize, cols: usize) -> (r: Result<usize, LAError>)
        requires
            old(self).wf(),
        ensures
            final(self).wf(),
            match r {
                Ok(handle) => {
                    &&& rows * cols <= usize::MAX
                    &&& handle == mem_store_handle(old(self)@)
                    &&& final(self)@ == mem_store(
                        old(self)@,
                        MatrixView {
                            data: Seq::new((rows * cols) as nat, |i: int| 0u32),
                            rows: rows as nat,
                            cols: cols as nat,
                        },
                    )
                },
                Err(e) => {
                    &&& e == LAError::SizeError
                    &&& rows * cols > usize::MAX
                    &&& final(self)@ == old(self)@
                },
            },
    {
        let zero_mat = match Matrix::zeros(rows, cols) {
            Ok(m) => m,
            Err(e) => {
                return Err(e);
            },
        };
        let ghost zero_view = zero_mat@;

        let n_slots = self.slots.len();
        let mut i: usize = 0;
        while i < n_slots
            invariant
                old(self).wf(),
                self@ == old(self)@,
                n_slots == self@.len(),
                i <= n_slots,
                forall|j: int| 0 <= j < i ==> self@[j] is Some,
                rows * cols <= usize::MAX,
                zero_mat@ == zero_view,
                zero_view == (MatrixView {
                    data: Seq::new((rows * cols) as nat, |k: int| 0u32),
                    rows: rows as nat,
                    cols: cols as nat,
                }),
            decreases n_slots - i,
        {
            let free = match &self.slots[i] {
                Some(_) => false,
                None => true,
            };
            if free {
                proof {
                    lemma_store_handle_is(self@, i as int);
                }
                let ghost pre = self@;
                self.slots.set(i, Some(zero_mat));
                proof {
                    assert(self@ =~= mem_store(pre, zero_view));
                }
                return Ok(i);
            }
            i += 1;
        }

        // Every slot is occupied: grow by a fixed step and take the first new
        // slot.
        proof {
            lemma_store_handle_is(self@, n_slots as int);
        }
        let ghost pre = self@;
        self.slots.push(Some(zero_mat));
        let mut added: usize = 1;
        while added < MEMORY_GROWTH_STEP
            invariant
                1 <= added <= MEMORY_GROWTH_STEP,
                self@.len() == pre.len() + added,
                forall|j: int| 0 <= j < pre.len() ==> self@[j] == pre[j],
                self@[pre.len() as int] == Some(zero_view),
                forall|j: int| pre.len() < j < self@.len() ==> self@[j] is None,
            decreases MEMORY_GROWTH_STEP - added,
        {
            let ghost before = self@;
            self.slots.push(None);
            proof {
                assert(self@ =~= before.push(None));
            }
            added += 1;
        }
        proof {
            assert(self@ =~= mem_store(pre, zero_view));
        }
        Ok(n_slots)
    }

    /// Copies `mat` into the slot addressed by `handle`.  The slot must be
    /// occupied and its recorded shape must match `mat`'s; the buffer is
    /// overwritten whole, never partially.
    pub fn upload(&mut self, handle: usize, mat: Matrix) -> (r: Result<(), LAError>)
        requires
            old(self).wf(),
            mat@.wf(),
        ensures
            final(self).wf(),
            match r {
                Ok(()) => {
                    &&& mem_get(old(self)@, handle as int) matches Some(s) && s.rows == mat@.rows
                        && s.cols == mat@.cols
                    &&& final(self)@ == old(self)@.update(handle as int, Some(mat@))
                },
                Err(e) => {
                    &&& final(self)@ == old(self)@
                    &&& match e {
                        LAError::MemoryError => mem_get(old(self)@, handle as int) is None,
                        LAError::MatrixMismatchError => mem_get(old(self)@, handle as int)
                            matches Some(s) && !(s.rows == mat@.rows && s.cols == mat@.cols),
                        _ => false,
                    }
                },
            },
    {
        if handle >= self.slots.len() {
            return Err(LAError::MemoryError);
        }
        let (slot_rows, slot_cols) = match &self.slots[handle] {
            Some(s) => (s.get_rows(), s.get_cols()),
            None => {
                return Err(LAError::MemoryError);
            },
        };
        if slot_rows != mat.get_rows() || slot_cols != mat.get_cols() {
            return Err(LAError::MatrixMismatchError);
        }
        let ghost pre = self@;
        let ghost mat_view = mat@;
        self.slots.set(handle, Some(mat));
        proof {
            assert(self@ =~= pre.update(handle as int, Some(mat_view)));
        }
        Ok(())
    }

    /// Copies the buffer addressed by `handle` back out as a host matrix,
    /// using the slot's recorded shape.  Fails on a freed or out-of-range
    /// handle before any device access.
    pub fn download(&self, handle: usize) -> (r: Result<Matrix, LAError>)
        ensures
            match r {
                Ok(m) => mem_get(self@, handle as int) == Some(m@),
                Err(e) => {
                    &&& e == LAError::MemoryError
                    &&& mem_get(self@, handle as int) is None
                },
            },
    {
        if handle >= self.slots.len() {
            return Err(LAError::MemoryError);
        }
        match &self.slots[handle] {
            Some(m) => Ok(m.clone()),
            None => Err(LAError::MemoryError),
        }
    }

    /// Reads the recorded shape of the buffer addressed by `handle` without
    /// copying any data.
    pub fn shape_of(&self, handle: usize) -> (r: Result<(usize, usize), LAError>)
        ensures
            match r {
                Ok(shape) => mem_get(self@, handle as int) matches Some(m) && m.rows == shape.0
                    && m.cols == shape.1,
                Err(e) => {
                    &&& e == LAError::MemoryError
                    &&& mem_get(self@, handle as int) is None
                },
            },
    {
        if handle >= self.slots.len() {
            return Err(LAError::MemoryError);
        }
        match &self.slots[handle] {
            Some(m) => Ok((m.get_rows(), m.get_cols())),
            None => Err(LAError::MemoryError),
        }
    }

    /// Releases the buffer addressed by `handle` and marks its slot empty,
    /// invalidating the handle immediately.
    pub fn free(&mut self, handle: usize) -> (r: Result<(), LAError>)
        requires
            old(self).wf(),
        ensures
            final(self).wf(),
            match r {
                Ok(()) => {
                    &&& mem_get(old(self)@, handle as int) is Some
                    &&& final(self)@ == mem_free(old(self)@, handle as int)
                },
                Err(e) => {
                    &&& e == LAError::MemoryError
                    &&& mem_get(old(self)@, handle as int) is None
                    &&& final(self)@ == old(self)@
                },
            },
    {
        if handle >= self.slots.len() {
            return Err(LAError::MemoryError);
        }
        let occupied = match &self.slots[handle] {
            Some(_) => true,
            None => false,
        };
        if !occupied {
            return Err(LAError::MemoryError);
        }
        let ghost pre = self@;
        self.slots.set(handle, None);
        proof {
            assert(self@ =~= mem_free(pre, handle as int));
        }
        Ok(())
    }

    /// Grows the slot array to `new_capacity`.  Existing handles stay valid;
    /// a capacity below the current one is rejected, the table never shrinks.
    pub fn resize_capacity(&mut self, new_capacity: usize) -> (r: Result<(), LAError>)
        requires
            old(self).wf(),
        ensures
            final(self).wf(),
            match r {
                Ok(()) => {
                    &&& new_capacity >= old(self)@.len()
                    &&& final(self)@.len() == new_capacity
                    &&& forall|j: int|
                        0 <= j < old(self)@.len() ==> final(self)@[j] == old(self)@[j]
                    &&& forall|j: int|
                        old(self)@.len() <= j < new_capacity ==> final(self)@[j] is None
                },
                Err(e) => {
                    &&& e == LAError::ResizeError
                    &&& new_capacity < old(self)@.len()
                    &&& final(self)@ == old(self)@
                },
            },
    {
        if new_capacity < self.slots.len() {
            return Err(LAError::ResizeError);
        }
        let ghost pre = self@;
        while self.slots.len() < new_capacity
            invariant
                self@.len() <= new_capacity,
                pre.len() <= self@.len(),
                forall|j: int| 0 <= j < pre.len() ==> self@[j] == pre[j],
                forall|j: int| pre.len() <= j < self@.len() ==> self@[j] is None,
                mem_slots_wf(pre) ==> mem_slots_wf(self@),
            decreases new_capacity - self@.len(),
        {
            let ghost before = self@;
            self.slots.push(None);
            proof {
                assert(self@ =~= before.push(None));
            }
        }
        Ok(())
    }
}

/// Storing a matrix and retrieving the returned handle yields that matrix
/// back, whatever the table held before.
pub proof fn lemma_store_then_retrieve(mem: Seq<Option<MatrixView>>, m: MatrixView)
    ensures
        mem_get(mem_store(mem, m), mem_store_handle(mem)) == Some(m),
{
    lemma_first_free_from(mem, 0);
}

/// Freeing an in-range handle leaves nothing to retrieve at it: stale data
/// can never come back.
pub proof fn lemma_free_then_retrieve(mem: Seq<Option<MatrixView>>, h: int)
    requires
        0 <= h < mem.len(),
    ensures
        mem_get(mem_free(mem, h), h) is None,
{
}

/// Storing never disturbs another slot: every previously issued handle
/// resolves to exactly what it held before, so growth is transparent.
pub proof fn lemma_store_preserves_others(mem: Seq<Option<MatrixView>>, m: MatrixView, j: int)
    requires
        0 <= j < mem.len(),
        j != mem_store_handle(mem),
    ensures
        mem_get(mem_store(mem, m), j) == mem_get(mem, j),
{
    lemma_first_free_from(mem, 0);
}

/// A store only ever fills a slot that was empty; it never overwrites an
/// occupied one.
pub proof fn lemma_store_fills_empty_slot(mem: Seq<Option<MatrixView>>, m: MatrixView)
    ensures
        mem_store_handle(mem) < mem.len() ==> mem[mem_store_handle(mem)] is None,
{
    lemma_first_free_from(mem, 0);
}

/// Capacity never shrinks on a store, and it grows (by the fixed step)
/// exactly when no slot was free.
pub proof fn lemma_store_capacity(mem: Seq<Option<MatrixView>>, m: MatrixView)
    ensures
        mem_store(mem, m).len() >= mem.len(),
        0 <= mem_store_handle(mem) < mem_store(mem, m).len(),
        (forall|j: int| 0 <= j < mem.len() ==> mem[j] is Some) <==> mem_store(mem, m).len()
            == mem.len() + MEMORY_GROWTH_STEP,
        mem_store(mem, m).len() == mem.len() || mem_store(mem, m).len() == mem.len()
            + MEMORY_GROWTH_STEP,
{
    lemma_first_free_from(mem, 0);
    if forall|j: int| 0 <= j < mem.len() ==> mem[j] is Some {
        lemma_store_handle_is(mem, mem.len() as int);
    }
}

/// After freeing handle `h`, the next store reuses a slot no later than `h`;
/// when every slot before `h` is occupied it reuses exactly `h`, and the old
/// handle then resolves to the newly stored matrix, not to the freed one.
pub proof fn lemma_freed_slot_reused(mem: Seq<Option<MatrixView>>, h: int)
    requires
        0 <= h < mem.len(),
    ensures
        mem_store_handle(mem_free(mem, h)) <= h,
        (forall|j: int| 0 <= j < h ==> mem[j] is Some) ==> mem_store_handle(mem_free(mem, h))
            == h,
{
    let freed = mem_free(mem, h);
    lemma_first_free_from(freed, 0);
    if first_free_from(freed, 0) > h {
        assert(freed[h] is None);
    }
    if forall|j: int| 0 <= j < h ==> mem[j] is Some {
        assert(forall|j: int| 0 <= j < h ==> freed[j] == mem[j]);
        lemma_store_handle_is(freed, h);
    }
}

} // verus!
