use rust_atomics::arc_weak_pointers::{Arc, Heap};
use std::cell::Cell;
use std::rc::Rc;

struct DetectDrop {
    drops: Rc<Cell<usize>>,
}

impl Drop for DetectDrop {
    fn drop(&mut self) {
        self.drops.set(self.drops.get() + 1);
    }
}

#[test]
fn check_arc_is_created_and_dropped() {
    let drops = Rc::new(Cell::new(0));
    let mut heap = Heap::new();
    let arc_obj = Arc::new(&mut heap, ("hello", DetectDrop { drops: drops.clone() }));
    let arc_obj_clone_1 = Arc::downgrade(&arc_obj, &mut heap);
    let arc_obj_clone_2 = Arc::downgrade(&arc_obj, &mut heap);

    // weak pointer is upgradeable
    let weak_ptr = arc_obj_clone_1.upgrade(&mut heap).unwrap();
    assert_eq!(weak_ptr.deref(&heap).0, "hello");
    weak_ptr.drop(&mut heap);
    arc_obj_clone_1.drop(&mut heap);

    assert_eq!(arc_obj.deref(&heap).0, "hello");

    // arc_obj_clone_1 has been dropped, but T still exists.
    assert_eq!(drops.get(), 0);
    let upgraded = arc_obj_clone_2.upgrade(&mut heap);
    assert!(upgraded.is_some());
    upgraded.unwrap().drop(&mut heap);

    arc_obj.drop(&mut heap);

    // main arc has been dropped, so T is deallocated, weak pointer cannot be
    // upgraded anymore, but the block and its counters still exist
    assert_eq!(drops.get(), 1);
    assert!(arc_obj_clone_2.upgrade(&mut heap).is_none());
    assert!(!heap.is_freed(0));
    arc_obj_clone_2.drop(&mut heap);
    assert!(heap.is_freed(0));
}

#[test]
fn arc_weak_pointers_check_pointers_are_incrementing_correctly() {
    let mut heap = Heap::new();
    let arc_obj = Arc::new(&mut heap, "hello");
    assert_eq!(*arc_obj.deref(&heap), "hello");

    let _arc_obj_clone_1 = arc_obj.clone(&mut heap);
    assert_eq!(arc_obj.strong_count(&heap), 2);

    // every Arc holds a Weak, so that the block outlives it
    assert_eq!(arc_obj.weak_count(&heap), 2);
}

#[test]
fn arc_weak_pointers_check_pointers_are_decrementing_correctly() {
    let mut heap = Heap::new();
    let arc_obj = Arc::new(&mut heap, "hello");
    assert_eq!(*arc_obj.deref(&heap), "hello");

    let arc_obj_clone_1 = arc_obj.clone(&mut heap);
    assert_eq!(arc_obj.strong_count(&heap), 2);

    // every Arc holds a Weak, so that the block outlives it
    assert_eq!(arc_obj.weak_count(&heap), 2);

    arc_obj_clone_1.drop(&mut heap);

    assert_eq!(arc_obj.strong_count(&heap), 1);
    assert_eq!(arc_obj.weak_count(&heap), 1);
}

#[test]
fn weak_count_counts_the_arc_and_each_weak() {
    let mut heap = Heap::new();
    let arc = Arc::new(&mut heap, 0u8);
    assert_eq!(arc.weak_count(&heap), 1);
    let weak = Arc::downgrade(&arc, &mut heap);
    assert_eq!(arc.weak_count(&heap), 2);
    let second = weak.clone(&mut heap);
    assert_eq!(arc.weak_count(&heap), 3);
    second.drop(&mut heap);
    weak.drop(&mut heap);
    assert_eq!(arc.weak_count(&heap), 1);
    assert_eq!(arc.strong_count(&heap), 1);
}

#[test]
fn get_mut_is_refused_beside_a_weak() {
    let mut heap = Heap::new();
    let mut arc = Arc::new(&mut heap, 10i64);
    match Arc::get_mut(&mut arc, &mut heap) {
        Some(data) => *data += 1,
        None => panic!("a lone Arc is unique"),
    }
    let weak = Arc::downgrade(&arc, &mut heap);
    assert!(Arc::get_mut(&mut arc, &mut heap).is_none());
    let other = weak.upgrade(&mut heap).unwrap();
    assert!(Arc::get_mut(&mut arc, &mut heap).is_none());
    weak.drop(&mut heap);
    assert!(Arc::get_mut(&mut arc, &mut heap).is_none());
    other.drop(&mut heap);
    assert!(Arc::get_mut(&mut arc, &mut heap).is_some());
    assert_eq!(*arc.deref(&heap), 11);
}

#[test]
fn upgrade_round_retries_on_a_stale_count() {
    let mut heap = Heap::new();
    let arc = Arc::new(&mut heap, ());
    let weak = Arc::downgrade(&arc, &mut heap);
    assert!(matches!(weak.try_upgrade(&mut heap, 5), Err(1)));
    assert_eq!((arc.strong_count(&heap), arc.weak_count(&heap)), (1, 2));
    let made = match weak.try_upgrade(&mut heap, 1) {
        Ok(Some(made)) => made,
        _ => panic!("the count was as seen"),
    };
    assert_eq!((arc.strong_count(&heap), arc.weak_count(&heap)), (2, 3));
    assert!(matches!(weak.try_upgrade(&mut heap, 0), Ok(None)));
    made.drop(&mut heap);
    assert_eq!((arc.strong_count(&heap), arc.weak_count(&heap)), (1, 2));
}
