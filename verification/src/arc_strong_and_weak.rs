//! Shared ownership by atomic reference counting, with weak references.
//!
//! A [`Heap`] holds control blocks. An [`Arc`] is a handle that keeps the
//! payload of its block alive; a [`Weak`] is a handle that keeps only the
//! block itself allocated. A block counts the `Arc`s in `strong`, and in
//! `alloc` the `Weak`s plus one for all the `Arc`s together. Whoever moves a
//! counter to zero does the cleanup: the payload is destroyed when `strong`
//! reaches zero and the block is freed when `alloc` does.
//!
//! A handle names its block by position and owns one unit of the matching
//! counter. Handles cannot be copied or forged, so a unit is given back only
//! by handing the handle to `drop`, once. A handle that is let go of in any
//! other way keeps its unit for good, and its block with it.
//!
//! Every operation is a short run of atomic steps on the control block, each
//! of them a function of the block here. [`crate::arc_interleaving`] follows
//! the same steps through every order in which several parties may take
//! them.

use crate::atomic::{fence, AtomicCounter, MemoryOrder};
use std::marker::PhantomData;
use vstd::prelude::*;

verus! {

/// The largest count from which a counter may still be raised. An attempt
/// beyond it is a fatal error of the caller, which has no way left but to
/// abort.
pub const MAX_REFCOUNT: usize = usize::MAX / 2;

/// What `alloc` holds while [`Arc::get_mut`] checks for uniqueness, so that
/// no [`Arc::downgrade`] can slip in between its two reads.
pub const LOCKED: usize = usize::MAX;

/// The state of one control block.
pub struct BlockState<T> {
    /// The number of `Arc`s.
    pub strong: usize,
    /// The number of `Weak`s, plus one while there is any `Arc`.
    pub alloc: usize,
    /// The payload, until it is destroyed.
    pub payload: Option<T>,
    /// Whether the block has been given back.
    pub freed: bool,
}

impl<T> BlockState<T> {
    /// The block that [`Arc::new`] allocates around `value`.
    pub open spec fn fresh(value: T) -> Self {
        BlockState { strong: 1, alloc: 1, payload: Some(value), freed: false }
    }

    /// What holds of a block between any two operations.
    pub open spec fn wf(self) -> bool {
        &&& self.strong <= MAX_REFCOUNT + 1
        &&& self.alloc <= MAX_REFCOUNT + 1
        &&& self.payload is Some <==> self.strong >= 1
        &&& self.strong >= 1 ==> self.alloc >= 1
        &&& self.freed <==> self.alloc == 0
    }

    /// The unit of `alloc` that the `Arc`s hold together.
    pub open spec fn implicit_weak(self) -> int {
        if self.strong >= 1 {
            1
        } else {
            0
        }
    }

    /// The number of `Weak`s.
    pub open spec fn weak_handles(self) -> int {
        self.alloc - self.implicit_weak()
    }

    /// One more unit of `strong`.
    pub open spec fn acquire_strong(self) -> Self {
        BlockState { strong: (self.strong + 1) as usize, ..self }
    }

    /// One more unit of `alloc`.
    pub open spec fn acquire_weak(self) -> Self {
        BlockState { alloc: (self.alloc + 1) as usize, ..self }
    }

    /// One unit of `strong` fewer.
    pub open spec fn decrement_strong(self) -> Self {
        BlockState { strong: (self.strong - 1) as usize, ..self }
    }

    /// One unit of `alloc` fewer.
    pub open spec fn decrement_alloc(self) -> Self {
        BlockState { alloc: (self.alloc - 1) as usize, ..self }
    }

    /// The payload destroyed.
    pub open spec fn destroy(self) -> Self {
        BlockState { payload: None, ..self }
    }

    /// The block given back.
    pub open spec fn free(self) -> Self {
        BlockState { freed: true, ..self }
    }

    /// `alloc` locked against `downgrade`.
    pub open spec fn lock(self) -> Self {
        BlockState { alloc: LOCKED, ..self }
    }

    /// `alloc` open again, for the one unit that a lock finds.
    pub open spec fn unlock(self) -> Self {
        BlockState { alloc: 1, ..self }
    }

    /// One `Weak` fewer, by an undisturbed [`Weak::drop`]: the last unit of
    /// `alloc` frees the block.
    pub open spec fn release_weak(self) -> Self {
        if self.alloc == 1 {
            self.decrement_alloc().free()
        } else {
            self.decrement_alloc()
        }
    }

    /// One `Arc` fewer, by an undisturbed [`Arc::drop`]: the last one
    /// destroys the payload and gives back the unit of `alloc` that the
    /// `Arc`s held together.
    pub open spec fn release_strong(self) -> Self {
        if self.strong == 1 {
            self.decrement_strong().destroy().release_weak()
        } else {
            self.decrement_strong()
        }
    }

    /// The same block around another payload.
    pub open spec fn with_payload(self, value: T) -> Self {
        BlockState { payload: Some(value), ..self }
    }

    /// Whether the block has one `Arc` and no `Weak`.
    pub open spec fn unique(self) -> bool {
        self.strong == 1 && self.alloc == 1
    }
}

/// Whether every one of `blocks` is well formed.
pub open spec fn all_wf<T>(blocks: Seq<BlockState<T>>) -> bool {
    forall|i: int| 0 <= i < blocks.len() ==> (#[trigger] blocks[i]).wf()
}

/// One control block: two counters and the payload.
struct ControlBlock<T> {
    strong_count: AtomicCounter,
    alloc_count: AtomicCounter,
    payload: Option<T>,
    freed: bool,
}

impl<T> View for ControlBlock<T> {
    type V = BlockState<T>;

    closed spec fn view(&self) -> BlockState<T> {
        BlockState {
            strong: self.strong_count@,
            alloc: self.alloc_count@,
            payload: self.payload,
            freed: self.freed,
        }
    }
}

impl<T> ControlBlock<T> {
    /// A block around `data` with its first `Arc`.
    fn fresh(data: T) -> (block: Self)
        ensures
            block@ == BlockState::fresh(data),
    {
        ControlBlock {
            alloc_count: AtomicCounter::new(1),
            strong_count: AtomicCounter::new(1),
            payload: Some(data),
            freed: false,
        }
    }

    /// Raises `strong` for a new `Arc`, made from an `Arc`. Nothing else
    /// depends on when this happens, so it need not be ordered.
    fn acquire_strong(&mut self)
        requires
            old(self)@.strong <= MAX_REFCOUNT,
        ensures
            final(self)@ == old(self)@.acquire_strong(),
    {
        self.strong_count.fetch_add(1, MemoryOrder::Relaxed);
    }

    /// Raises `alloc` for a new `Weak`, made from a `Weak`.
    fn acquire_weak(&mut self)
        requires
            old(self)@.alloc <= MAX_REFCOUNT,
        ensures
            final(self)@ == old(self)@.acquire_weak(),
    {
        self.alloc_count.fetch_add(1, MemoryOrder::Relaxed);
    }

    /// Raises `strong` for a new `Arc`, made from a `Weak`, if `strong`
    /// holds `seen`; tells what it holds if not.
    fn try_acquire_strong(&mut self, seen: usize) -> (outcome: Result<(), usize>)
        requires
            seen <= MAX_REFCOUNT,
        ensures
            outcome == (if old(self)@.strong == seen {
                Ok::<(), usize>(())
            } else {
                Err::<(), usize>(old(self)@.strong)
            }),
            final(self)@ == (if old(self)@.strong == seen {
                old(self)@.acquire_strong()
            } else {
                old(self)@
            }),
    {
        match self.strong_count.compare_exchange_weak(
            seen,
            seen + 1,
            MemoryOrder::Relaxed,
            MemoryOrder::Relaxed,
        ) {
            Ok(_) => Ok(()),
            Err(current) => Err(current),
        }
    }

    /// Raises `alloc` for a new `Weak`, made from an `Arc`, if `alloc` holds
    /// `seen`; tells what it holds if not. A success comes after the unlock
    /// of whatever `get_mut` went before.
    fn try_acquire_weak(&mut self, seen: usize) -> (outcome: Result<(), usize>)
        requires
            seen <= MAX_REFCOUNT,
        ensures
            outcome == (if old(self)@.alloc == seen {
                Ok::<(), usize>(())
            } else {
                Err::<(), usize>(old(self)@.alloc)
            }),
            final(self)@ == (if old(self)@.alloc == seen {
                old(self)@.acquire_weak()
            } else {
                old(self)@
            }),
    {
        match self.alloc_count.compare_exchange_weak(
            seen,
            seen + 1,
            MemoryOrder::Acquire,
            MemoryOrder::Relaxed,
        ) {
            Ok(_) => Ok(()),
            Err(current) => Err(current),
        }
    }

    /// Lowers `strong`, and tells whether that was the last unit.
    fn decrement_strong(&mut self) -> (last: bool)
        requires
            old(self)@.strong >= 1,
        ensures
            final(self)@ == old(self)@.decrement_strong(),
            last == (old(self)@.strong == 1),
    {
        self.strong_count.fetch_sub(1, MemoryOrder::Release) == 1
    }

    /// Destroys the payload, after everything that was done to it through
    /// the handles given back.
    fn destroy(&mut self)
        ensures
            final(self)@ == old(self)@.destroy(),
    {
        fence(MemoryOrder::Acquire);
        self.payload = None;
    }

    /// Lowers `alloc`, and tells whether that was the last unit.
    fn decrement_alloc(&mut self) -> (last: bool)
        requires
            old(self)@.alloc >= 1,
        ensures
            final(self)@ == old(self)@.decrement_alloc(),
            last == (old(self)@.alloc == 1),
    {
        self.alloc_count.fetch_sub(1, MemoryOrder::Release) == 1
    }

    /// Gives the block back, after everything that was done to it through
    /// the handles given back.
    fn free(&mut self)
        ensures
            final(self)@ == old(self)@.free(),
    {
        fence(MemoryOrder::Acquire);
        self.freed = true;
    }

    /// Locks `alloc` if it holds one, and tells whether it did.
    fn lock(&mut self) -> (locked: bool)
        ensures
            locked == (old(self)@.alloc == 1),
            final(self)@ == (if locked {
                old(self)@.lock()
            } else {
                old(self)@
            }),
    {
        self.alloc_count.compare_exchange(
            1,
            LOCKED,
            MemoryOrder::Acquire,
            MemoryOrder::Relaxed,
        ).is_ok()
    }

    /// Whether `strong` holds one.
    fn sole_strong(&self) -> (sole: bool)
        ensures
            sole == (self@.strong == 1),
    {
        self.strong_count.load(MemoryOrder::Relaxed) == 1
    }

    /// Unlocks `alloc`. A `downgrade` that goes through after this sees
    /// what `strong` was found to be.
    fn unlock(&mut self)
        ensures
            final(self)@ == old(self)@.unlock(),
    {
        self.alloc_count.store(1, MemoryOrder::Release);
    }

    /// Whether the block has one `Arc` and no `Weak`. While the two counters
    /// are compared, `alloc` is locked against `downgrade`.
    fn check_unique(&mut self) -> (is_unique: bool)
        ensures
            final(self)@ == old(self)@,
            is_unique == old(self)@.unique(),
    {
        if !self.lock() {
            return false;
        }
        let is_unique = self.sole_strong();
        self.unlock();
        is_unique
    }

    /// Gives back one unit of `alloc`; the last one frees the block.
    fn release_weak(&mut self)
        requires
            old(self)@.alloc >= 1,
        ensures
            final(self)@ == old(self)@.release_weak(),
    {
        if self.decrement_alloc() {
            self.free();
        }
    }

    /// Gives back one unit of `strong`; the last one destroys the payload
    /// and gives back the unit of `alloc` that the `Arc`s held together.
    fn release_strong(&mut self)
        requires
            old(self)@.strong >= 1,
            old(self)@.alloc >= 1,
        ensures
            final(self)@ == old(self)@.release_strong(),
    {
        if self.decrement_strong() {
            self.destroy();
            self.release_weak();
        }
    }
}

/// The memory in which control blocks live. A block keeps its position for
/// good; a freed one is never handed out again.
pub struct Heap<T> {
    blocks: Vec<ControlBlock<T>>,
}

impl<T> View for Heap<T> {
    type V = Seq<BlockState<T>>;

    closed spec fn view(&self) -> Seq<BlockState<T>> {
        Seq::new(self.blocks@.len(), |i: int| self.blocks@[i]@)
    }
}

/// A handle that shares ownership of a payload.
pub struct Arc<T> {
    block: usize,
    owner: PhantomData<T>,
}

/// A handle that observes a block without keeping its payload alive.
pub struct Weak<T> {
    block: usize,
    owner: PhantomData<T>,
}

impl<T> Heap<T> {
    /// Every block is well formed.
    pub open spec fn wf(&self) -> bool {
        all_wf(self@)
    }

    /// Whether `block` is allocated and has an `Arc`.
    pub open spec fn has_strong(&self, block: int) -> bool {
        0 <= block < self@.len() && self@[block].strong >= 1
    }

    /// Whether `block` is allocated and has a `Weak`.
    pub open spec fn has_weak(&self, block: int) -> bool {
        0 <= block < self@.len() && self@[block].weak_handles() >= 1
    }

    /// A heap without blocks.
    pub fn new() -> (heap: Self)
        ensures
            heap@ == Seq::<BlockState<T>>::empty(),
            heap.wf(),
    {
        let heap = Heap { blocks: Vec::new() };
        assert(heap@ =~= Seq::<BlockState<T>>::empty());
        heap
    }

    /// The number of blocks ever allocated.
    pub fn len(&self) -> (n: usize)
        ensures
            n == self@.len(),
    {
        self.blocks.len()
    }

    /// Whether the block at `block` has been freed.
    pub fn is_freed(&self, block: usize) -> (freed: bool)
        requires
            block < self@.len(),
        ensures
            freed == self@[block as int].freed,
    {
        self.blocks[block].freed
    }

    /// Rewrites one block's view in terms of the heap's.
    proof fn lemma_update(&self, before: &Self, block: int)
        requires
            0 <= block < before.blocks@.len(),
            self.blocks@.len() == before.blocks@.len(),
            forall|i: int|
                0 <= i < before.blocks@.len() && i != block ==> self.blocks@[i] == before.blocks@[i],
        ensures
            self@ == before@.update(block, self.blocks@[block]@),
    {
        assert(self@ =~= before@.update(block, self.blocks@[block]@));
    }
}

impl<T> Arc<T> {
    /// The position of the block that this handle refers to.
    pub closed spec fn block(&self) -> int {
        self.block as int
    }

    /// Allocates a block around `data` and returns its first handle.
    pub fn new(heap: &mut Heap<T>, data: T) -> (arc: Arc<T>)
        requires
            old(heap).wf(),
        ensures
            final(heap).wf(),
            arc.block() == old(heap)@.len(),
            final(heap)@ == old(heap)@.push(BlockState::fresh(data)),
    {
        let block: usize = heap.blocks.len();
        heap.blocks.push(ControlBlock::fresh(data));
        assert(heap@ =~= old(heap)@.push(BlockState::fresh(data)));
        Arc { block, owner: PhantomData }
    }

    /// The number of `Weak`s of the block, plus one for its `Arc`s.
    pub fn weak_count(&self, heap: &Heap<T>) -> (count: usize)
        requires
            heap.has_strong(self.block()),
        ensures
            count == heap@[self.block()].alloc,
    {
        heap.blocks[self.block].alloc_count.load(MemoryOrder::Acquire)
    }

    /// The number of `Arc`s of the block.
    pub fn strong_count(&self, heap: &Heap<T>) -> (count: usize)
        requires
            heap.has_strong(self.block()),
        ensures
            count == heap@[self.block()].strong,
    {
        heap.blocks[self.block].strong_count.load(MemoryOrder::Acquire)
    }

    /// The payload.
    pub fn deref<'a>(&self, heap: &'a Heap<T>) -> (data: &'a T)
        requires
            heap.wf(),
            heap.has_strong(self.block()),
        ensures
            heap@[self.block()].payload == Some(*data),
    {
        assert(heap@[self.block()].wf());
        heap.blocks[self.block].payload.as_ref().unwrap()
    }

    /// The payload for writing, if `arc` is the only handle of its block:
    /// the one `Arc` and no `Weak`. Otherwise `None`, with nothing changed.
    pub fn get_mut<'a>(arc: &mut Self, heap: &'a mut Heap<T>) -> (data: Option<&'a mut T>)
        requires
            old(heap).wf(),
            old(heap).has_strong(old(arc).block()),
        ensures
            final(arc).block() == old(arc).block(),
            data is Some <==> old(heap)@[old(arc).block()].unique(),
            match data {
                Some(payload) => {
                    &&& old(heap)@[old(arc).block()].payload == Some(*payload)
                    &&& final(heap)@ == old(heap)@.update(
                        old(arc).block(),
                        old(heap)@[old(arc).block()].with_payload(*final(payload)),
                    )
                },
                None => final(heap)@ == old(heap)@,
            },
            final(heap).wf(),
    {
        let ghost before = *heap;
        assert(heap@[arc.block()].wf());
        let is_unique = heap.blocks[arc.block].check_unique();
        proof {
            heap.lemma_update(&before, arc.block());
            assert(heap@ =~= before@);
        }
        if !is_unique {
            return None;
        }
        // Nothing else reaches the payload from here on.
        fence(MemoryOrder::Acquire);
        assert forall|value: T|
            all_wf(
                #[trigger] heap@.update(arc.block(), heap@[arc.block()].with_payload(value)),
            ) by {}
        heap.blocks[arc.block].payload.as_mut()
    }

    /// A new `Weak` to the block of `arc`.
    pub fn downgrade(arc: &Self, heap: &mut Heap<T>) -> (weak: Weak<T>)
        requires
            old(heap).wf(),
            old(heap).has_strong(arc.block()),
            old(heap)@[arc.block()].alloc <= MAX_REFCOUNT,
        ensures
            final(heap).wf(),
            weak.block() == arc.block(),
            final(heap)@ == old(heap)@.update(arc.block(), old(heap)@[arc.block()].acquire_weak()),
    {
        let mut seen: usize = heap.blocks[arc.block].alloc_count.load(MemoryOrder::Relaxed);
        loop
            invariant
                heap@ == old(heap)@,
                old(heap).wf(),
                old(heap).has_strong(arc.block()),
                old(heap)@[arc.block()].alloc <= MAX_REFCOUNT,
                seen <= MAX_REFCOUNT,
            decreases
                    (if seen == heap@[arc.block()].alloc {
                        0int
                    } else {
                        1int
                    }),
        {
            match Self::try_downgrade(arc, heap, seen) {
                Ok(weak) => {
                    return weak;
                },
                Err(current) => {
                    seen = current;
                },
            }
        }
    }

    /// One round of [`Arc::downgrade`], for a caller that has last seen
    /// `seen` in `alloc`. Where the counter still holds `seen` and is not
    /// locked, it is raised and the new `Weak` comes back. Otherwise nothing
    /// changes and the counter's present value comes back, to be tried next.
    pub fn try_downgrade(arc: &Self, heap: &mut Heap<T>, seen: usize) -> (outcome: Result<
        Weak<T>,
        usize,
    >)
        requires
            old(heap).has_strong(arc.block()),
            seen != LOCKED ==> seen <= MAX_REFCOUNT,
        ensures
            outcome is Ok <==> seen != LOCKED && seen == old(heap)@[arc.block()].alloc,
            match outcome {
                Ok(weak) => {
                    &&& weak.block() == arc.block()
                    &&& final(heap)@ == old(heap)@.update(
                        arc.block(),
                        old(heap)@[arc.block()].acquire_weak(),
                    )
                },
                Err(current) => {
                    &&& current == old(heap)@[arc.block()].alloc
                    &&& final(heap)@ == old(heap)@
                },
            },
    {
        let ghost before = *heap;
        if seen == LOCKED {
            std::hint::spin_loop();
            return Err(heap.blocks[arc.block].alloc_count.load(MemoryOrder::Relaxed));
        }
        let outcome = heap.blocks[arc.block].try_acquire_weak(seen);
        proof {
            heap.lemma_update(&before, arc.block());
        }
        match outcome {
            Ok(_) => Ok(Weak { block: arc.block, owner: PhantomData }),
            Err(current) => {
                assert(heap@ =~= before@);
                Err(current)
            },
        }
    }

    /// A new `Arc` to the same block.
    pub fn clone(&self, heap: &mut Heap<T>) -> (arc: Arc<T>)
        requires
            old(heap).wf(),
            old(heap).has_strong(self.block()),
            old(heap)@[self.block()].strong <= MAX_REFCOUNT,
        ensures
            final(heap).wf(),
            arc.block() == self.block(),
            final(heap)@ == old(heap)@.update(
                self.block(),
                old(heap)@[self.block()].acquire_strong(),
            ),
    {
        let ghost before = *heap;
        assert(heap@[self.block()].wf());
        heap.blocks[self.block].acquire_strong();
        proof {
            heap.lemma_update(&before, self.block());
        }
        Arc { block: self.block, owner: PhantomData }
    }

    /// Gives the handle back. The last `Arc` of a block destroys the payload
    /// and gives back the unit of `alloc` that the `Arc`s held together; if
    /// no `Weak` is left either, the block is freed.
    pub fn drop(self, heap: &mut Heap<T>)
        requires
            old(heap).wf(),
            old(heap).has_strong(self.block()),
        ensures
            final(heap).wf(),
            final(heap)@ == old(heap)@.update(
                self.block(),
                old(heap)@[self.block()].release_strong(),
            ),
    {
        let ghost before = *heap;
        assert(heap@[self.block()].wf());
        heap.blocks[self.block].release_strong();
        proof {
            heap.lemma_update(&before, self.block());
        }
    }
}

impl<T> Weak<T> {
    /// The position of the block that this handle refers to.
    pub closed spec fn block(&self) -> int {
        self.block as int
    }

    /// A new `Arc` to the block, if its payload is still alive; `None` once
    /// the last `Arc` is gone.
    pub fn upgrade(&self, heap: &mut Heap<T>) -> (arc: Option<Arc<T>>)
        requires
            old(heap).wf(),
            old(heap).has_weak(self.block()),
            old(heap)@[self.block()].strong <= MAX_REFCOUNT,
        ensures
            final(heap).wf(),
            arc is Some <==> old(heap)@[self.block()].strong >= 1,
            match arc {
                Some(arc) => {
                    &&& arc.block() == self.block()
                    &&& final(heap)@ == old(heap)@.update(
                        self.block(),
                        old(heap)@[self.block()].acquire_strong(),
                    )
                },
                None => final(heap)@ == old(heap)@,
            },
    {
        let mut seen: usize = heap.blocks[self.block].strong_count.load(MemoryOrder::Relaxed);
        loop
            invariant
                heap@ == old(heap)@,
                old(heap).wf(),
                old(heap).has_weak(self.block()),
                old(heap)@[self.block()].strong <= MAX_REFCOUNT,
                seen == 0 ==> old(heap)@[self.block()].strong == 0,
                seen <= MAX_REFCOUNT,
            decreases
                    (if seen == heap@[self.block()].strong {
                        0int
                    } else {
                        1int
                    }),
        {
            match self.try_upgrade(heap, seen) {
                Ok(arc) => {
                    return arc;
                },
                Err(current) => {
                    seen = current;
                },
            }
        }
    }

    /// One round of [`Weak::upgrade`], for a caller that has last seen `seen`
    /// in `strong`. A caller that has seen zero gets `None`: the payload is
    /// gone for good. Where the counter still holds `seen`, it is raised and
    /// the new `Arc` comes back. Otherwise nothing changes and the counter's
    /// present value comes back, to be tried next.
    pub fn try_upgrade(&self, heap: &mut Heap<T>, seen: usize) -> (outcome: Result<
        Option<Arc<T>>,
        usize,
    >)
        requires
            old(heap).has_weak(self.block()),
            seen <= MAX_REFCOUNT,
        ensures
            outcome is Ok <==> seen == 0 || seen == old(heap)@[self.block()].strong,
            match outcome {
                Ok(Some(arc)) => {
                    &&& seen != 0
                    &&& arc.block() == self.block()
                    &&& final(heap)@ == old(heap)@.update(
                        self.block(),
                        old(heap)@[self.block()].acquire_strong(),
                    )
                },
                Ok(None) => seen == 0 && final(heap)@ == old(heap)@,
                Err(current) => {
                    &&& current == old(heap)@[self.block()].strong
                    &&& final(heap)@ == old(heap)@
                },
            },
    {
        let ghost before = *heap;
        if seen == 0 {
            return Ok(None);
        }
        let outcome = heap.blocks[self.block].try_acquire_strong(seen);
        proof {
            heap.lemma_update(&before, self.block());
        }
        match outcome {
            Ok(_) => Ok(Some(Arc { block: self.block, owner: PhantomData })),
            Err(current) => {
                assert(heap@ =~= before@);
                Err(current)
            },
        }
    }

    /// A new `Weak` to the same block.
    pub fn clone(&self, heap: &mut Heap<T>) -> (weak: Weak<T>)
        requires
            old(heap).wf(),
            old(heap).has_weak(self.block()),
            old(heap)@[self.block()].alloc <= MAX_REFCOUNT,
        ensures
            final(heap).wf(),
            weak.block() == self.block(),
            final(heap)@ == old(heap)@.update(
                self.block(),
                old(heap)@[self.block()].acquire_weak(),
            ),
    {
        let ghost before = *heap;
        assert(heap@[self.block()].wf());
        heap.blocks[self.block].acquire_weak();
        proof {
            heap.lemma_update(&before, self.block());
        }
        Weak { block: self.block, owner: PhantomData }
    }

    /// Gives the handle back. The last unit of `alloc` frees the block.
    pub fn drop(self, heap: &mut Heap<T>)
        requires
            old(heap).wf(),
            old(heap).has_weak(self.block()),
        ensures
            final(heap).wf(),
            final(heap)@ == old(heap)@.update(
                self.block(),
                old(heap)@[self.block()].release_weak(),
            ),
    {
        let ghost before = *heap;
        assert(heap@[self.block()].wf());
        heap.blocks[self.block].release_weak();
        proof {
            heap.lemma_update(&before, self.block());
        }
    }
}

} // verus!
