use rust_atomics::arc_strong_and_weak::{Arc, Heap, Weak};
use std::cell::Cell;
use std::rc::Rc;

struct DetectDrop {
    drops: Rc<Cell<usize>>,
}

impl Drop for DetectDrop {
    fn drop(&mut self) {
        self.drops.set(self.drops.get() + 1);
    }
}

#[test]
fn arc_is_cloned_downgradeable_and_upgradeable() {
    let drops = Rc::new(Cell::new(0));
    let mut heap = Heap::new();
    let arc_obj = Arc::new(&mut heap, ("hello", DetectDrop { drops: drops.clone() }));
    let arc_obj_clone_1 = Arc::downgrade(&arc_obj, &mut heap);
    let arc_obj_clone_2 = Arc::downgrade(&arc_obj, &mut heap);

    // weak pointer is upgradeable
    let weak_ptr = arc_obj_clone_1.upgrade(&mut heap).unwrap();
    assert_eq!(weak_ptr.deref(&heap).0, "hello");
    weak_ptr.drop(&mut heap);
    arc_obj_clone_1.drop(&mut heap);

    assert_eq!(arc_obj.deref(&heap).0, "hello");

    // arc_obj_clone_1 has been dropped, but T still exists.
    assert_eq!(drops.get(), 0);
    let upgraded = arc_obj_clone_2.upgrade(&mut heap);
    assert!(upgraded.is_some());
    upgraded.unwrap().drop(&mut heap);

    arc_obj.drop(&mut heap);

    // main arc has been dropped, so T is deallocated, weak pointer cannot be
    // upgraded anymore, but the block is still allocated
    assert_eq!(drops.get(), 1);
    assert!(arc_obj_clone_2.upgrade(&mut heap).is_none());
    assert!(!heap.is_freed(0));
}

#[test]
fn arc_strong_and_weak_check_pointers_are_incrementing_correctly() {
    let mut heap = Heap::new();
    let arc_obj = Arc::new(&mut heap, "hello");
    assert_eq!(*arc_obj.deref(&heap), "hello");

    let _arc_obj_clone_1 = arc_obj.clone(&mut heap);
    assert_eq!(arc_obj.strong_count(&heap), 2);

    // the Arcs hold one unit of the allocation count together
    assert_eq!(arc_obj.weak_count(&heap), 1);
}

#[test]
fn arc_strong_and_weak_check_pointers_are_decrementing_correctly() {
    let mut heap = Heap::new();
    let arc_obj = Arc::new(&mut heap, "hello");
    assert_eq!(*arc_obj.deref(&heap), "hello");

    let arc_obj_clone_1 = arc_obj.clone(&mut heap);
    assert_eq!(arc_obj.strong_count(&heap), 2);
    assert_eq!(arc_obj.weak_count(&heap), 1);

    arc_obj_clone_1.drop(&mut heap);

    assert_eq!(arc_obj.strong_count(&heap), 1);
    // an Arc is left, so the Arcs still hold their unit
    assert_eq!(arc_obj.weak_count(&heap), 1);
}

#[test]
fn weak_count_is_two_after_downgrade_and_one_after_its_drop() {
    let mut heap = Heap::new();
    let arc = Arc::new(&mut heap, 7u32);
    assert_eq!(arc.weak_count(&heap), 1);
    let weak = Arc::downgrade(&arc, &mut heap);
    assert_eq!(arc.weak_count(&heap), 2);
    weak.drop(&mut heap);
    assert_eq!(arc.weak_count(&heap), 1);
    assert_eq!(arc.strong_count(&heap), 1);
}

#[test]
fn payload_is_destroyed_once_with_the_last_arc() {
    let drops = Rc::new(Cell::new(0));
    let mut heap = Heap::new();
    let first = Arc::new(&mut heap, DetectDrop { drops: drops.clone() });
    let mut others = Vec::new();
    for _ in 0..10 {
        others.push(first.clone(&mut heap));
    }
    assert_eq!(first.strong_count(&heap), 11);
    // give them back in another order than they were made in
    first.drop(&mut heap);
    assert_eq!(drops.get(), 0);
    while let Some(arc) = others.pop() {
        assert_eq!(drops.get(), 0);
        arc.drop(&mut heap);
    }
    assert_eq!(drops.get(), 1);
    assert!(heap.is_freed(0));
}

#[test]
fn upgrade_fails_once_every_arc_is_gone() {
    let mut heap = Heap::new();
    let arc = Arc::new(&mut heap, String::from("payload"));
    let weak = Arc::downgrade(&arc, &mut heap);
    let again = weak.upgrade(&mut heap).unwrap();
    assert_eq!(arc.strong_count(&heap), 2);
    again.drop(&mut heap);
    arc.drop(&mut heap);
    assert!(weak.upgrade(&mut heap).is_none());
    assert!(weak.upgrade(&mut heap).is_none());
    assert!(!heap.is_freed(0));
    weak.drop(&mut heap);
    assert!(heap.is_freed(0));
}

#[test]
fn get_mut_needs_the_only_handle() {
    let mut heap = Heap::new();
    let mut arc = Arc::new(&mut heap, 1u64);
    match Arc::get_mut(&mut arc, &mut heap) {
        Some(value) => *value = 5,
        None => panic!("a lone Arc is unique"),
    }
    assert_eq!(*arc.deref(&heap), 5);

    let other = arc.clone(&mut heap);
    assert!(Arc::get_mut(&mut arc, &mut heap).is_none());
    other.drop(&mut heap);

    let weak = Arc::downgrade(&arc, &mut heap);
    assert!(Arc::get_mut(&mut arc, &mut heap).is_none());
    assert_eq!(arc.weak_count(&heap), 2);
    weak.drop(&mut heap);

    assert!(Arc::get_mut(&mut arc, &mut heap).is_some());
    assert_eq!(arc.weak_count(&heap), 1);
    assert_eq!(arc.strong_count(&heap), 1);
    assert_eq!(*arc.deref(&heap), 5);
}

#[test]
fn a_stale_observation_is_retried() {
    let mut heap = Heap::new();
    let arc = Arc::new(&mut heap, 'x');
    let weak = Arc::downgrade(&arc, &mut heap);

    // the strong count is 1, not 3
    let outcome = weak.try_upgrade(&mut heap, 3);
    assert!(matches!(outcome, Err(1)));
    assert_eq!(arc.strong_count(&heap), 1);
    let outcome = weak.try_upgrade(&mut heap, 1);
    let second = match outcome {
        Ok(Some(second)) => second,
        _ => panic!("the count was as seen"),
    };
    assert_eq!(arc.strong_count(&heap), 2);
    // who has seen zero gives up
    assert!(matches!(weak.try_upgrade(&mut heap, 0), Ok(None)));
    assert_eq!(arc.strong_count(&heap), 2);

    // the allocation count is 2; a locked count is read again
    assert!(matches!(Arc::try_downgrade(&arc, &mut heap, usize::MAX), Err(2)));
    assert!(matches!(Arc::try_downgrade(&arc, &mut heap, 1), Err(2)));
    assert_eq!(arc.weak_count(&heap), 2);
    let other = match Arc::try_downgrade(&arc, &mut heap, 2) {
        Ok(other) => other,
        Err(_) => panic!("the count was as seen"),
    };
    assert_eq!(arc.weak_count(&heap), 3);
    other.drop(&mut heap);
    assert_eq!(arc.weak_count(&heap), 2);
    second.drop(&mut heap);
}

#[test]
fn blocks_are_independent() {
    let mut heap: Heap<i32> = Heap::new();
    assert_eq!(heap.len(), 0);
    let a = Arc::new(&mut heap, 1);
    let b = Arc::new(&mut heap, 2);
    assert_eq!(heap.len(), 2);
    let a2 = a.clone(&mut heap);
    let wb: Weak<i32> = Arc::downgrade(&b, &mut heap);
    let wb2 = wb.clone(&mut heap);
    assert_eq!(a.strong_count(&heap), 2);
    assert_eq!(a.weak_count(&heap), 1);
    assert_eq!(b.strong_count(&heap), 1);
    assert_eq!(b.weak_count(&heap), 3);
    a.drop(&mut heap);
    a2.drop(&mut heap);
    assert!(heap.is_freed(0));
    assert!(!heap.is_freed(1));
    assert_eq!(*b.deref(&heap), 2);
    wb.drop(&mut heap);
    wb2.drop(&mut heap);
    b.drop(&mut heap);
    assert!(heap.is_freed(1));
}
