//! Shared ownership by atomic reference counting, in its plainest form: one
//! counter, no weak references.
//!
//! A [`Heap`] holds the blocks. An [`Arc`] is a handle that names its block
//! by position and owns one unit of the block's counter. Whoever gives back
//! the last unit frees the block, and the data with it.

use crate::atomic::{fence, AtomicCounter, MemoryOrder};
use std::marker::PhantomData;
use vstd::prelude::*;

verus! {

/// The largest count from which the counter may still be raised. An attempt
/// beyond it is a fatal error of the caller, which has no way left but to
/// abort.
pub const MAX_REFCOUNT: usize = usize::MAX / 2;

/// The state of one block.
pub struct BlockState<T> {
    /// The number of `Arc`s.
    pub count: usize,
    /// The data, until the block is freed.
    pub data: Option<T>,
}

impl<T> BlockState<T> {
    /// The block that [`Arc::new`] allocates around `value`.
    pub open spec fn fresh(value: T) -> Self {
        BlockState { count: 1, data: Some(value) }
    }

    /// What holds of a block between any two operations.
    pub open spec fn wf(self) -> bool {
        &&& self.count <= MAX_REFCOUNT + 1
        &&& self.data is Some <==> self.count >= 1
    }

    /// Whether the block has been freed.
    pub open spec fn freed(self) -> bool {
        self.data is None
    }

    /// One more `Arc`.
    pub open spec fn acquire(self) -> Self {
        BlockState { count: (self.count + 1) as usize, ..self }
    }

    /// One `Arc` fewer; the last one frees the block.
    pub open spec fn release(self) -> Self {
        if self.count == 1 {
            BlockState { count: 0, data: None }
        } else {
            BlockState { count: (self.count - 1) as usize, ..self }
        }
    }

    /// The same block around other data.
    pub open spec fn with_data(self, value: T) -> Self {
        BlockState { data: Some(value), ..self }
    }
}

/// Whether every one of `blocks` is well formed.
pub open spec fn all_wf<T>(blocks: Seq<BlockState<T>>) -> bool {
    forall|i: int| 0 <= i < blocks.len() ==> (#[trigger] blocks[i]).wf()
}

/// One block: the counter and the data.
struct ArcData<T> {
    ref_count: AtomicCounter,
    data: Option<T>,
}

impl<T> View for ArcData<T> {
    type V = BlockState<T>;

    closed spec fn view(&self) -> BlockState<T> {
        BlockState { count: self.ref_count@, data: self.data }
    }
}

/// The memory in which blocks live. A block keeps its position for good; a
/// freed one is never handed out again.
pub struct Heap<T> {
    blocks: Vec<ArcData<T>>,
}

impl<T> View for Heap<T> {
    type V = Seq<BlockState<T>>;

    closed spec fn view(&self) -> Seq<BlockState<T>> {
        Seq::new(self.blocks@.len(), |i: int| self.blocks@[i]@)
    }
}

/// A handle that shares ownership of the data of its block.
pub struct Arc<T> {
    block: usize,
    owner: PhantomData<T>,
}

impl<T> Heap<T> {
    /// Every block is well formed.
    pub open spec fn wf(&self) -> bool {
        all_wf(self@)
    }

    /// Whether `block` is allocated and has an `Arc`.
    pub open spec fn has_arc(&self, block: int) -> bool {
        0 <= block < self@.len() && self@[block].count >= 1
    }

    /// A heap without blocks.
    pub fn new() -> (heap: Self)
        ensures
            heap@ == Seq::<BlockState<T>>::empty(),
            heap.wf(),
    {
        let heap = Heap { blocks: Vec::new() };
        assert(heap@ =~= Seq::<BlockState<T>>::empty());
        heap
    }

    /// The number of blocks ever allocated.
    pub fn len(&self) -> (n: usize)
        ensures
            n == self@.len(),
    {
        self.blocks.len()
    }

    /// Whether the block at `block` has been freed.
    pub fn is_freed(&self, block: usize) -> (freed: bool)
        requires
            block < self@.len(),
        ensures
            freed == self@[block as int].freed(),
    {
        self.blocks[block].data.is_none()
    }

    /// Rewrites one block's view in terms of the heap's.
    proof fn lemma_update(&self, before: &Self, block: int)
        requires
            0 <= block < before.blocks@.len(),
            self.blocks@.len() == before.blocks@.len(),
            forall|i: int|
                0 <= i < before.blocks@.len() && i != block ==> self.blocks@[i] == before.blocks@[i],
        ensures
            self@ == before@.update(block, self.blocks@[block]@),
    {
        assert(self@ =~= before@.update(block, self.blocks@[block]@));
    }
}

impl<T> Arc<T> {
    /// The position of the block that this handle refers to.
    pub closed spec fn block(&self) -> int {
        self.block as int
    }

    /// Allocates a block around `data`, its counter at one, and returns its
    /// first handle.
    pub fn new(heap: &mut Heap<T>, data: T) -> (arc: Arc<T>)
        requires
            old(heap).wf(),
        ensures
            final(heap).wf(),
            arc.block() == old(heap)@.len(),
            final(heap)@ == old(heap)@.push(BlockState::fresh(data)),
    {
        let block: usize = heap.blocks.len();
        heap.blocks.push(ArcData { ref_count: AtomicCounter::new(1), data: Some(data) });
        assert(heap@ =~= old(heap)@.push(BlockState::fresh(data)));
        Arc { block, owner: PhantomData }
    }

    /// The number of `Arc`s of the block.
    pub fn count(&self, heap: &Heap<T>) -> (count: usize)
        requires
            heap.has_arc(self.block()),
        ensures
            count == heap@[self.block()].count,
    {
        heap.blocks[self.block].ref_count.load(MemoryOrder::Relaxed)
    }

    /// The data for writing, if `arc` is the only `Arc` of its block.
    /// Otherwise `None`, with nothing changed.
    pub fn get_mut<'a>(arc: &mut Self, heap: &'a mut Heap<T>) -> (data: Option<&'a mut T>)
        requires
            old(heap).wf(),
            old(heap).has_arc(old(arc).block()),
        ensures
            final(arc).block() == old(arc).block(),
            data is Some <==> old(heap)@[old(arc).block()].count == 1,
            match data {
                Some(data) => {
                    &&& old(heap)@[old(arc).block()].data == Some(*data)
                    &&& final(heap)@ == old(heap)@.update(
                        old(arc).block(),
                        old(heap)@[old(arc).block()].with_data(*final(data)),
                    )
                },
                None => final(heap)@ == old(heap)@,
            },
            final(heap).wf(),
    {
        assert(heap@[arc.block()].wf());
        if heap.blocks[arc.block].ref_count.load(MemoryOrder::Relaxed) > 1 {
            return None;
        }
        // Nothing else reaches the data from here on.
        fence(MemoryOrder::Acquire);
        assert forall|value: T|
            all_wf(#[trigger] heap@.update(arc.block(), heap@[arc.block()].with_data(value))) by {}
        heap.blocks[arc.block].data.as_mut()
    }

    /// The data.
    pub fn deref<'a>(&self, heap: &'a Heap<T>) -> (data: &'a T)
        requires
            heap.wf(),
            heap.has_arc(self.block()),
        ensures
            heap@[self.block()].data == Some(*data),
    {
        assert(heap@[self.block()].wf());
        heap.blocks[self.block].data.as_ref().unwrap()
    }

    /// A new `Arc` to the same block.
    pub fn clone(&self, heap: &mut Heap<T>) -> (arc: Arc<T>)
        requires
            old(heap).wf(),
            old(heap).has_arc(self.block()),
            old(heap)@[self.block()].count <= MAX_REFCOUNT,
        ensures
            final(heap).wf(),
            arc.block() == self.block(),
            final(heap)@ == old(heap)@.update(self.block(), old(heap)@[self.block()].acquire()),
    {
        let ghost before = *heap;
        assert(heap@[self.block()].wf());
        heap.blocks[self.block].ref_count.fetch_add(1, MemoryOrder::Relaxed);
        proof {
            heap.lemma_update(&before, self.block());
        }
        Arc { block: self.block, owner: PhantomData }
    }

    /// Gives the handle back. The last `Arc` of a block frees it, and
    /// destroys the data with it.
    pub fn drop(self, heap: &mut Heap<T>)
        requires
            old(heap).wf(),
            old(heap).has_arc(self.block()),
        ensures
            final(heap).wf(),
            final(heap)@ == old(heap)@.update(self.block(), old(heap)@[self.block()].release()),
    {
        let ghost before = *heap;
        assert(heap@[self.block()].wf());
        let block = &mut heap.blocks[self.block];
        if block.ref_count.fetch_sub(1, MemoryOrder::Release) == 1 {
            // Everything done through the other handles comes before this.
            fence(MemoryOrder::Acquire);
            block.data = None;
        }
        proof {
            heap.lemma_update(&before, self.block());
        }
    }
}

/// What can be done with the `Arc`s of one block.
pub enum Operation {
    /// `Arc::clone`.
    Clone,
    /// `Arc::drop`.
    Drop,
}

/// A block and the number of its `Arc`s in existence.
pub struct Sharing<T> {
    /// The block.
    pub block: BlockState<T>,
    /// The number of `Arc`s.
    pub arcs: nat,
    /// How often the data has been destroyed.
    pub destructions: nat,
}

impl<T> Sharing<T> {
    /// A block as [`Arc::new`] makes it, with its one `Arc`.
    pub open spec fn fresh(value: T) -> Self {
        Sharing { block: BlockState::fresh(value), arcs: 1, destructions: 0 }
    }

    /// Whether somebody has an `Arc` to do `operation` with. A count that is
    /// too high to be raised aborts the process, so nothing follows it.
    pub open spec fn enabled(self, operation: Operation) -> bool {
        match operation {
            Operation::Clone => self.arcs >= 1 && self.block.count <= MAX_REFCOUNT,
            Operation::Drop => self.arcs >= 1,
        }
    }

    /// The state after `operation`, by the contracts of [`Arc::clone`] and
    /// [`Arc::drop`].
    pub open spec fn apply(self, operation: Operation) -> Self {
        match operation {
            Operation::Clone => Sharing {
                block: self.block.acquire(),
                arcs: self.arcs + 1,
                ..self
            },
            Operation::Drop => Sharing {
                block: self.block.release(),
                arcs: (self.arcs - 1) as nat,
                destructions: if self.block.data is Some && self.block.release().data is None {
                    self.destructions + 1
                } else {
                    self.destructions
                },
            },
        }
    }

    /// Whether each of `operations` is enabled where it is done.
    pub open spec fn admits(self, operations: Seq<Operation>) -> bool
        decreases operations.len(),
    {
        if operations.len() == 0 {
            true
        } else {
            self.admits(operations.drop_last()) && self.after(operations.drop_last()).enabled(
                operations.last(),
            )
        }
    }

    /// The state after `operations`, done one after the other.
    pub open spec fn after(self, operations: Seq<Operation>) -> Self
        decreases operations.len(),
    {
        if operations.len() == 0 {
            self
        } else {
            self.after(operations.drop_last()).apply(operations.last())
        }
    }
}

/// In whatever order the `Arc`s of a block are cloned and dropped, the
/// counter holds their number, the data lives while there is one, and once
/// the last is dropped the data has been destroyed exactly once.
pub proof fn law_data_destroyed_once<T>(value: T, operations: Seq<Operation>)
    requires
        Sharing::fresh(value).admits(operations),
    ensures
        ({
            let now = Sharing::fresh(value).after(operations);
            &&& now.block.wf()
            &&& now.block.count == now.arcs
            &&& now.arcs >= 1 ==> now.destructions == 0 && now.block.data == Some(value)
            &&& now.arcs == 0 ==> now.destructions == 1 && now.block.freed()
        }),
    decreases operations.len(),
{
    if operations.len() > 0 {
        law_data_destroyed_once(value, operations.drop_last());
    }
}

} // verus!
