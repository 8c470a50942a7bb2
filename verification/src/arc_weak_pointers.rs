//! Shared ownership by atomic reference counting, with weak references, in
//! the form in which every `Arc` is a `Weak` with a claim on the data.
//!
//! A [`Heap`] holds the blocks. A [`Weak`] is a handle that keeps its block
//! allocated; an [`Arc`] holds a `Weak` and keeps the data alive besides. A
//! block counts the `Arc`s in `strong` and all the `Weak`s in `weak`, those
//! inside the `Arc`s too. The data is destroyed when `strong` reaches zero
//! and the block is freed when `weak` does.

use crate::atomic::{fence, AtomicCounter, MemoryOrder};
use std::marker::PhantomData;
use vstd::prelude::*;

verus! {

/// The largest count from which a counter may still be raised. An attempt
/// beyond it is a fatal error of the caller, which has no way left but to
/// abort.
pub const MAX_REFCOUNT: usize = usize::MAX / 2;

/// The state of one block.
pub struct BlockState<T> {
    /// The number of `Arc`s.
    pub strong: usize,
    /// The number of `Weak`s, those inside the `Arc`s too.
    pub weak: usize,
    /// The data, until it is destroyed.
    pub data: Option<T>,
    /// Whether the block has been given back.
    pub freed: bool,
}

impl<T> BlockState<T> {
    /// The block that [`Arc::new`] allocates around `value`.
    pub open spec fn fresh(value: T) -> Self {
        BlockState { strong: 1, weak: 1, data: Some(value), freed: false }
    }

    /// What holds of a block between any two operations.
    pub open spec fn wf(self) -> bool {
        &&& self.strong <= self.weak
        &&& self.weak <= MAX_REFCOUNT + 1
        &&& self.data is Some <==> self.strong >= 1
        &&& self.freed <==> self.weak == 0
    }

    /// The number of `Weak`s that are not inside an `Arc`.
    pub open spec fn weak_handles(self) -> int {
        self.weak - self.strong
    }

    /// One more `Weak`.
    pub open spec fn acquire_weak(self) -> Self {
        BlockState { weak: (self.weak + 1) as usize, ..self }
    }

    /// One more `Arc`, with the `Weak` inside it.
    pub open spec fn acquire_strong(self) -> Self {
        BlockState { strong: (self.strong + 1) as usize, weak: (self.weak + 1) as usize, ..self }
    }

    /// One `Weak` fewer; the last one frees the block.
    pub open spec fn release_weak(self) -> Self {
        BlockState { weak: (self.weak - 1) as usize, freed: self.weak == 1, ..self }
    }

    /// One `Arc` fewer, and the `Weak` inside it; the last `Arc` destroys
    /// the data.
    pub open spec fn release_strong(self) -> Self {
        BlockState {
            strong: (self.strong - 1) as usize,
            data: if self.strong == 1 {
                None
            } else {
                self.data
            },
            ..self
        }.release_weak()
    }

    /// The same block around other data.
    pub open spec fn with_data(self, value: T) -> Self {
        BlockState { data: Some(value), ..self }
    }

    /// Whether the block has one `Arc` and no `Weak` beside the one in it.
    pub open spec fn unique(self) -> bool {
        self.weak == 1
    }
}

/// Whether every one of `blocks` is well formed.
pub open spec fn all_wf<T>(blocks: Seq<BlockState<T>>) -> bool {
    forall|i: int| 0 <= i < blocks.len() ==> (#[trigger] blocks[i]).wf()
}

/// One block: two counters and the data.
struct ArcData<T> {
    strong_ref_count: AtomicCounter,
    weak_ref_count: AtomicCounter,
    data: Option<T>,
    freed: bool,
}

impl<T> View for ArcData<T> {
    type V = BlockState<T>;

    closed spec fn view(&self) -> BlockState<T> {
        BlockState {
            strong: self.strong_ref_count@,
            weak: self.weak_ref_count@,
            data: self.data,
            freed: self.freed,
        }
    }
}

/// The memory in which blocks live. A block keeps its position for good; a
/// freed one is never handed out again.
pub struct Heap<T> {
    blocks: Vec<ArcData<T>>,
}

impl<T> View for Heap<T> {
    type V = Seq<BlockState<T>>;

    closed spec fn view(&self) -> Seq<BlockState<T>> {
        Seq::new(self.blocks@.len(), |i: int| self.blocks@[i]@)
    }
}

/// A handle that keeps a block allocated without keeping its data alive.
pub struct Weak<T> {
    block: usize,
    owner: PhantomData<T>,
}

/// A handle that shares ownership of the data of its block.
pub struct Arc<T> {
    weak: Weak<T>,
}

impl<T> Heap<T> {
    /// Every block is well formed.
    pub open spec fn wf(&self) -> bool {
        all_wf(self@)
    }

    /// Whether `block` is allocated and has an `Arc`.
    pub open spec fn has_strong(&self, block: int) -> bool {
        0 <= block < self@.len() && self@[block].strong >= 1
    }

    /// Whether `block` is allocated and has a `Weak` that is not inside an
    /// `Arc`.
    pub open spec fn has_weak(&self, block: int) -> bool {
        0 <= block < self@.len() && self@[block].weak_handles() >= 1
    }

    /// A heap without blocks.
    pub fn new() -> (heap: Self)
        ensures
            heap@ == Seq::<BlockState<T>>::empty(),
            heap.wf(),
    {
        let heap = Heap { blocks: Vec::new() };
        assert(heap@ =~= Seq::<BlockState<T>>::empty());
        heap
    }

    /// The number of blocks ever allocated.
    pub fn len(&self) -> (n: usize)
        ensures
            n == self@.len(),
    {
        self.blocks.len()
    }

    /// Whether the block at `block` has been freed.
    pub fn is_freed(&self, block: usize) -> (freed: bool)
        requires
            block < self@.len(),
        ensures
            freed == self@[block as int].freed,
    {
        self.blocks[block].freed
    }

    /// Rewrites one block's view in terms of the heap's.
    proof fn lemma_update(&self, before: &Self, block: int)
        requires
            0 <= block < before.blocks@.len(),
            self.blocks@.len() == before.blocks@.len(),
            forall|i: int|
                0 <= i < before.blocks@.len() && i != block ==> self.blocks@[i] == before.blocks@[i],
        ensures
            self@ == before@.update(block, self.blocks@[block]@),
    {
        assert(self@ =~= before@.update(block, self.blocks@[block]@));
    }
}

impl<T> Arc<T> {
    /// The position of the block that this handle refers to.
    pub closed spec fn block(&self) -> int {
        self.weak.block()
    }

    /// Allocates a block around `data`, both counters at one, and returns
    /// its first handle.
    pub fn new(heap: &mut Heap<T>, data: T) -> (arc: Arc<T>)
        requires
            old(heap).wf(),
        ensures
            final(heap).wf(),
            arc.block() == old(heap)@.len(),
            final(heap)@ == old(heap)@.push(BlockState::fresh(data)),
    {
        let block: usize = heap.blocks.len();
        heap.blocks.push(
            ArcData {
                weak_ref_count: AtomicCounter::new(1),
                strong_ref_count: AtomicCounter::new(1),
                data: Some(data),
                freed: false,
            },
        );
        assert(heap@ =~= old(heap)@.push(BlockState::fresh(data)));
        Arc { weak: Weak { block, owner: PhantomData } }
    }

    /// The number of `Weak`s of the block, those inside its `Arc`s too.
    pub fn weak_count(&self, heap: &Heap<T>) -> (count: usize)
        requires
            heap.has_strong(self.block()),
        ensures
            count == heap@[self.block()].weak,
    {
        heap.blocks[self.weak.block].weak_ref_count.load(MemoryOrder::Relaxed)
    }

    /// The number of `Arc`s of the block.
    pub fn strong_count(&self, heap: &Heap<T>) -> (count: usize)
        requires
            heap.has_strong(self.block()),
        ensures
            count == heap@[self.block()].strong,
    {
        heap.blocks[self.weak.block].strong_ref_count.load(MemoryOrder::Relaxed)
    }

    /// The data for writing, if `arc` is the only handle of its block: the
    /// one `Arc`, and no `Weak` beside the one in it. Otherwise `None`, with
    /// nothing changed.
    pub fn get_mut<'a>(arc: &mut Self, heap: &'a mut Heap<T>) -> (data: Option<&'a mut T>)
        requires
            old(heap).wf(),
            old(heap).has_strong(old(arc).block()),
        ensures
            final(arc).block() == old(arc).block(),
            data is Some <==> old(heap)@[old(arc).block()].unique(),
            match data {
                Some(data) => {
                    &&& old(heap)@[old(arc).block()].data == Some(*data)
                    &&& final(heap)@ == old(heap)@.update(
                        old(arc).block(),
                        old(heap)@[old(arc).block()].with_data(*final(data)),
                    )
                },
                None => final(heap)@ == old(heap)@,
            },
            final(heap).wf(),
    {
        assert(heap@[arc.block()].wf());
        if heap.blocks[arc.weak.block].weak_ref_count.load(MemoryOrder::Relaxed) != 1 {
            return None;
        }
        // Nothing else reaches the data from here on: there is one `Arc`,
        // lent to this call, and no `Weak` to make another from.
        fence(MemoryOrder::Acquire);
        assert forall|value: T|
            all_wf(#[trigger] heap@.update(arc.block(), heap@[arc.block()].with_data(value))) by {}
        heap.blocks[arc.weak.block].data.as_mut()
    }

    /// A new `Weak` to the block of `arc`.
    pub fn downgrade(arc: &Self, heap: &mut Heap<T>) -> (weak: Weak<T>)
        requires
            old(heap).wf(),
            old(heap).has_strong(arc.block()),
            old(heap)@[arc.block()].weak <= MAX_REFCOUNT,
        ensures
            final(heap).wf(),
            weak.block() == arc.block(),
            final(heap)@ == old(heap)@.update(arc.block(), old(heap)@[arc.block()].acquire_weak()),
    {
        arc.weak.duplicate(heap)
    }

    /// The data.
    pub fn deref<'a>(&self, heap: &'a Heap<T>) -> (data: &'a T)
        requires
            heap.wf(),
            heap.has_strong(self.block()),
        ensures
            heap@[self.block()].data == Some(*data),
    {
        assert(heap@[self.block()].wf());
        heap.blocks[self.weak.block].data.as_ref().unwrap()
    }

    /// A new `Arc` to the same block.
    pub fn clone(&self, heap: &mut Heap<T>) -> (arc: Arc<T>)
        requires
            old(heap).wf(),
            old(heap).has_strong(self.block()),
            old(heap)@[self.block()].weak <= MAX_REFCOUNT,
        ensures
            final(heap).wf(),
            arc.block() == self.block(),
            final(heap)@ == old(heap)@.update(
                self.block(),
                old(heap)@[self.block()].acquire_strong(),
            ),
    {
        assert(heap@[self.block()].wf());
        let weak = self.weak.duplicate(heap);
        let ghost between = *heap;
        assert(between@.len() == between.blocks@.len());
        heap.blocks[weak.block].strong_ref_count.fetch_add(1, MemoryOrder::Relaxed);
        proof {
            heap.lemma_update(&between, self.block());
            assert(between@[self.block()] == between.blocks@[self.block()]@);
            assert(heap@ =~= old(heap)@.update(
                self.block(),
                old(heap)@[self.block()].acquire_strong(),
            ));
        }
        Arc { weak }
    }

    /// Gives the handle back. The last `Arc` of a block destroys the data.
    /// The `Weak` inside the handle is given back in either case; if it is
    /// the last, the block is freed.
    pub fn drop(self, heap: &mut Heap<T>)
        requires
            old(heap).wf(),
            old(heap).has_strong(self.block()),
        ensures
            final(heap).wf(),
            final(heap)@ == old(heap)@.update(
                self.block(),
                old(heap)@[self.block()].release_strong(),
            ),
    {
        let ghost before = *heap;
        assert(heap@[self.block()].wf());
        let block = &mut heap.blocks[self.weak.block];
        if block.strong_ref_count.fetch_sub(1, MemoryOrder::Release) == 1 {
            // Everything done through the other handles comes before this.
            fence(MemoryOrder::Acquire);
            block.data = None;
        }
        Weak::release(block);
        proof {
            heap.lemma_update(&before, self.block());
        }
    }
}

impl<T> Weak<T> {
    /// The position of the block that this handle refers to.
    pub closed spec fn block(&self) -> int {
        self.block as int
    }

    /// Raises `weak` for a new handle to the same block.
    fn duplicate(&self, heap: &mut Heap<T>) -> (weak: Weak<T>)
        requires
            0 <= self.block() < old(heap)@.len(),
            old(heap)@[self.block()].weak <= MAX_REFCOUNT,
        ensures
            weak.block() == self.block(),
            final(heap)@ == old(heap)@.update(
                self.block(),
                old(heap)@[self.block()].acquire_weak(),
            ),
    {
        let ghost before = *heap;
        heap.blocks[self.block].weak_ref_count.fetch_add(1, MemoryOrder::Relaxed);
        proof {
            heap.lemma_update(&before, self.block());
        }
        Weak { block: self.block, owner: PhantomData }
    }

    /// Gives back one unit of `weak`; the last one frees the block.
    fn release(block: &mut ArcData<T>)
        requires
            old(block)@.weak >= 1,
            !old(block)@.freed,
        ensures
            final(block)@ == old(block)@.release_weak(),
    {
        if block.weak_ref_count.fetch_sub(1, MemoryOrder::Release) == 1 {
            // Everything done through the other handles comes before this.
            fence(MemoryOrder::Acquire);
            block.freed = true;
        }
    }

    /// A new `Arc` to the block, if its data is still alive; `None` once the
    /// last `Arc` is gone.
    pub fn upgrade(&self, heap: &mut Heap<T>) -> (arc: Option<Arc<T>>)
        requires
            old(heap).wf(),
            old(heap).has_weak(self.block()),
            old(heap)@[self.block()].weak <= MAX_REFCOUNT,
        ensures
            final(heap).wf(),
            arc is Some <==> old(heap)@[self.block()].strong >= 1,
            match arc {
                Some(arc) => {
                    &&& arc.block() == self.block()
                    &&& final(heap)@ == old(heap)@.update(
                        self.block(),
                        old(heap)@[self.block()].acquire_strong(),
                    )
                },
                None => final(heap)@ == old(heap)@,
            },
    {
        assert(heap@[self.block()].wf());
        let mut seen: usize = heap.blocks[self.block].strong_ref_count.load(MemoryOrder::Relaxed);
        loop
            invariant
                heap@ == old(heap)@,
                old(heap).wf(),
                old(heap).has_weak(self.block()),
                old(heap)@[self.block()].weak <= MAX_REFCOUNT,
                seen == 0 ==> old(heap)@[self.block()].strong == 0,
                seen <= MAX_REFCOUNT,
            decreases
                    (if seen == heap@[self.block()].strong {
                        0int
                    } else {
                        1int
                    }),
        {
            assert(heap@[self.block()].wf());
            match self.try_upgrade(heap, seen) {
                Ok(arc) => {
                    return arc;
                },
                Err(current) => {
                    seen = current;
                },
            }
        }
    }

    /// One round of [`Weak::upgrade`], for a caller that has last seen `seen`
    /// in `strong`. A caller that has seen zero gets `None`: the data is
    /// gone for good. Where the counter still holds `seen`, it is raised and
    /// the new `Arc` comes back, around a new `Weak`. Otherwise nothing
    /// changes and the counter's present value comes back, to be tried next.
    pub fn try_upgrade(&self, heap: &mut Heap<T>, seen: usize) -> (outcome: Result<
        Option<Arc<T>>,
        usize,
    >)
        requires
            old(heap).has_weak(self.block()),
            old(heap)@[self.block()].weak <= MAX_REFCOUNT,
            seen <= MAX_REFCOUNT,
        ensures
            outcome is Ok <==> seen == 0 || seen == old(heap)@[self.block()].strong,
            match outcome {
                Ok(Some(arc)) => {
                    &&& seen != 0
                    &&& arc.block() == self.block()
                    &&& final(heap)@ == old(heap)@.update(
                        self.block(),
                        old(heap)@[self.block()].acquire_strong(),
                    )
                },
                Ok(None) => seen == 0 && final(heap)@ == old(heap)@,
                Err(current) => {
                    &&& current == old(heap)@[self.block()].strong
                    &&& final(heap)@ == old(heap)@
                },
            },
    {
        let ghost before = *heap;
        if seen == 0 {
            return Ok(None);
        }
        let outcome = heap.blocks[self.block].strong_ref_count.compare_exchange_weak(
            seen,
            seen + 1,
            MemoryOrder::Relaxed,
            MemoryOrder::Relaxed,
        );
        proof {
            heap.lemma_update(&before, self.block());
        }
        match outcome {
            Ok(_) => {
                let weak = self.duplicate(heap);
                assert(heap@ =~= before@.update(
                    self.block(),
                    before@[self.block()].acquire_strong(),
                ));
                Ok(Some(Arc { weak }))
            },
            Err(current) => {
                assert(heap@ =~= before@);
                Err(current)
            },
        }
    }

    /// A new `Weak` to the same block.
    pub fn clone(&self, heap: &mut Heap<T>) -> (weak: Weak<T>)
        requires
            old(heap).wf(),
            old(heap).has_weak(self.block()),
            old(heap)@[self.block()].weak <= MAX_REFCOUNT,
        ensures
            final(heap).wf(),
            weak.block() == self.block(),
            final(heap)@ == old(heap)@.update(
                self.block(),
                old(heap)@[self.block()].acquire_weak(),
            ),
    {
        assert(heap@[self.block()].wf());
        self.duplicate(heap)
    }

    /// Gives the handle back. The last `Weak` of a block frees it.
    pub fn drop(self, heap: &mut Heap<T>)
        requires
            old(heap).wf(),
            old(heap).has_weak(self.block()),
        ensures
            final(heap).wf(),
            final(heap)@ == old(heap)@.update(
                self.block(),
                old(heap)@[self.block()].release_weak(),
            ),
    {
        let ghost before = *heap;
        assert(heap@[self.block()].wf());
        Self::release(&mut heap.blocks[self.block]);
        proof {
            heap.lemma_update(&before, self.block());
        }
    }
}

/// What can be done with the handles of one block.
pub enum Operation {
    /// `Arc::clone`.
    CloneArc,
    /// `Arc::drop`.
    DropArc,
    /// `Arc::downgrade`.
    Downgrade,
    /// `Weak::upgrade`.
    Upgrade,
    /// `Weak::clone`.
    CloneWeak,
    /// `Weak::drop`.
    DropWeak,
}

/// A block and the handles to it.
pub struct Sharing<T> {
    /// The block.
    pub block: BlockState<T>,
    /// The number of `Arc`s in existence.
    pub arcs: nat,
    /// The number of `Weak`s in existence that are not inside an `Arc`.
    pub weaks: nat,
    /// How often the data has been destroyed.
    pub destructions: nat,
    /// How often the block has been freed.
    pub frees: nat,
}

impl<T> Sharing<T> {
    /// A block as [`Arc::new`] makes it, with its one `Arc`.
    pub open spec fn fresh(value: T) -> Self {
        Sharing { block: BlockState::fresh(value), arcs: 1, weaks: 0, destructions: 0, frees: 0 }
    }

    /// Whether somebody has the handle to do `operation` with. A count that
    /// is too high to be raised aborts the process, so nothing follows it.
    pub open spec fn enabled(self, operation: Operation) -> bool {
        match operation {
            Operation::CloneArc => self.arcs >= 1 && self.block.weak <= MAX_REFCOUNT,
            Operation::DropArc => self.arcs >= 1,
            Operation::Downgrade => self.arcs >= 1 && self.block.weak <= MAX_REFCOUNT,
            Operation::Upgrade => self.weaks >= 1 && self.block.weak <= MAX_REFCOUNT,
            Operation::CloneWeak => self.weaks >= 1 && self.block.weak <= MAX_REFCOUNT,
            Operation::DropWeak => self.weaks >= 1,
        }
    }

    /// This state around another block, with the destructions and frees
    /// that the change of block shows.
    pub open spec fn moved_to(self, block: BlockState<T>, arcs: nat, weaks: nat) -> Self {
        Sharing {
            block,
            arcs,
            weaks,
            destructions: if self.block.data is Some && block.data is None {
                self.destructions + 1
            } else {
                self.destructions
            },
            frees: if !self.block.freed && block.freed {
                self.frees + 1
            } else {
                self.frees
            },
        }
    }

    /// The state after `operation`, by the contracts of the functions of
    /// [`Arc`] and [`Weak`].
    pub open spec fn apply(self, operation: Operation) -> Self {
        match operation {
            Operation::CloneArc => self.moved_to(
                self.block.acquire_strong(),
                self.arcs + 1,
                self.weaks,
            ),
            Operation::DropArc => self.moved_to(
                self.block.release_strong(),
                (self.arcs - 1) as nat,
                self.weaks,
            ),
            Operation::Downgrade => self.moved_to(
                self.block.acquire_weak(),
                self.arcs,
                self.weaks + 1,
            ),
            Operation::Upgrade => if self.block.strong >= 1 {
                self.moved_to(self.block.acquire_strong(), self.arcs + 1, self.weaks)
            } else {
                self
            },
            Operation::CloneWeak => self.moved_to(
                self.block.acquire_weak(),
                self.arcs,
                self.weaks + 1,
            ),
            Operation::DropWeak => self.moved_to(
                self.block.release_weak(),
                self.arcs,
                (self.weaks - 1) as nat,
            ),
        }
    }

    /// Whether each of `operations` is enabled where it is done.
    pub open spec fn admits(self, operations: Seq<Operation>) -> bool
        decreases operations.len(),
    {
        if operations.len() == 0 {
            true
        } else {
            self.admits(operations.drop_last()) && self.after(operations.drop_last()).enabled(
                operations.last(),
            )
        }
    }

    /// The state after `operations`, done one after the other.
    pub open spec fn after(self, operations: Seq<Operation>) -> Self
        decreases operations.len(),
    {
        if operations.len() == 0 {
            self
        } else {
            self.after(operations.drop_last()).apply(operations.last())
        }
    }
}

/// In whatever order the handles of a block are made and dropped, `strong`
/// holds the number of `Arc`s and `weak` the number of all handles. The data
/// lives while there is an `Arc` and has been destroyed exactly once when
/// there is none; the block is allocated while there is a handle and has
/// been freed exactly once when there is none. `Arc::get_mut` succeeds
/// exactly for an `Arc` beside which there is neither `Arc` nor `Weak`.
pub proof fn law_counts_are_handles<T>(value: T, operations: Seq<Operation>)
    requires
        Sharing::fresh(value).admits(operations),
    ensures
        ({
            let now = Sharing::fresh(value).after(operations);
            &&& now.block.wf()
            &&& now.block.strong == now.arcs
            &&& now.block.weak == now.arcs + now.weaks
            &&& now.arcs >= 1 ==> now.destructions == 0 && now.block.data == Some(value)
            &&& now.arcs == 0 ==> now.destructions == 1 && now.block.data is None
            &&& now.arcs + now.weaks >= 1 ==> now.frees == 0 && !now.block.freed
            &&& now.arcs + now.weaks == 0 ==> now.frees == 1 && now.block.freed
            &&& now.arcs >= 1 ==> (now.block.unique() <==> now.arcs == 1 && now.weaks == 0)
        }),
    decreases operations.len(),
{
    if operations.len() > 0 {
        law_counts_are_handles(value, operations.drop_last());
    }
}

} // verus!
