use rust_atomics::arc_basic::{Arc, Heap};
use std::cell::Cell;
use std::rc::Rc;

struct DetectDrop {
    drops: Rc<Cell<usize>>,
}

impl Drop for DetectDrop {
    fn drop(&mut self) {
        self.drops.set(self.drops.get() + 1);
    }
}

#[test]
fn arc_is_created_and_dropped() {
    let drops = Rc::new(Cell::new(0));
    let mut heap = Heap::new();
    let arc_obj = Arc::new(&mut heap, ("hello", DetectDrop { drops: drops.clone() }));
    let arc_obj_clone = arc_obj.clone(&mut heap);

    // the other party reads and gives its handle back
    assert_eq!(arc_obj.deref(&heap).0, "hello");
    arc_obj.drop(&mut heap);

    assert_eq!(arc_obj_clone.deref(&heap).0, "hello");

    // x has been dropped, this test checks if the object data hasn't been dropped.
    assert_eq!(drops.get(), 0);

    arc_obj_clone.drop(&mut heap);

    // y has been dropped, so we check if the object data has been dropped too
    assert_eq!(drops.get(), 1);
    assert!(heap.is_freed(0));
}

#[test]
fn arc_ref_count_is_incrementing_correctly() {
    let mut heap = Heap::new();
    let arc_obj = Arc::new(&mut heap, "hello");

    assert_eq!(*arc_obj.deref(&heap), "hello");
    assert_eq!(arc_obj.count(&heap), 1);

    let _arc_obj_clone = arc_obj.clone(&mut heap);

    assert_eq!(arc_obj.count(&heap), 2);
}

#[test]
fn arc_ref_count_is_decrementing_correctly() {
    let mut heap = Heap::new();
    let arc_obj = Arc::new(&mut heap, "hello");

    assert_eq!(*arc_obj.deref(&heap), "hello");
    assert_eq!(arc_obj.count(&heap), 1);

    let arc_obj_clone = arc_obj.clone(&mut heap);
    assert_eq!(arc_obj.count(&heap), 2);

    arc_obj_clone.drop(&mut heap);
    assert_eq!(arc_obj.count(&heap), 1);
}

#[test]
fn basic_get_mut_needs_the_only_arc() {
    let mut heap = Heap::new();
    let mut arc = Arc::new(&mut heap, vec![1, 2]);
    let other = arc.clone(&mut heap);
    assert!(Arc::get_mut(&mut arc, &mut heap).is_none());
    other.drop(&mut heap);
    match Arc::get_mut(&mut arc, &mut heap) {
        Some(data) => data.push(3),
        None => panic!("a lone Arc is unique"),
    }
    assert_eq!(*arc.deref(&heap), vec![1, 2, 3]);
    assert_eq!(arc.count(&heap), 1);
}

#[test]
fn basic_blocks_keep_their_places() {
    let mut heap = Heap::new();
    let a = Arc::new(&mut heap, 'a');
    let b = Arc::new(&mut heap, 'b');
    assert_eq!(heap.len(), 2);
    a.drop(&mut heap);
    assert!(heap.is_freed(0));
    assert!(!heap.is_freed(1));
    assert_eq!(*b.deref(&heap), 'b');
    let c = Arc::new(&mut heap, 'c');
    assert_eq!(heap.len(), 3);
    assert!(heap.is_freed(0));
    assert!(!heap.is_freed(2));
    assert_eq!(*c.deref(&heap), 'c');
}
