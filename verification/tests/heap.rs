use ownership::list::List;
use ownership::Heap;
use ownership::SharedPointer;
use ownership::WeakRef;

#[test]
fn fresh_allocation_counts() {
    let mut heap: Heap<i32> = Heap::new();
    let handle = heap.allocate(7);
    assert_eq!(heap.strong_count(&handle), 1);
    assert_eq!(heap.weak_count(&handle), 0);
    assert_eq!(*heap.read(&handle), 7);
}

#[test]
fn clone_and_drop_restores_counts() {
    let mut heap: Heap<String> = Heap::new();
    let first = heap.allocate(String::from("shared"));
    let second = heap.clone_pointer(&first);
    let third = heap.clone_pointer(&first);
    let fourth = heap.clone_pointer(&second);
    assert_eq!(heap.strong_count(&first), 4);
    assert!(heap.drop_pointer(second).is_none());
    assert!(heap.drop_pointer(third).is_none());
    assert!(heap.drop_pointer(fourth).is_none());
    assert_eq!(heap.strong_count(&first), 1);
    assert_eq!(heap.drop_pointer(first), Some(String::from("shared")));
}

#[test]
fn upgrade_after_last_strong_drop_fails() {
    let mut heap: Heap<i32> = Heap::new();
    let strong = heap.allocate(5);
    let weak = heap.downgrade(&strong);
    assert_eq!(heap.weak_count(&strong), 1);
    assert_eq!(heap.drop_pointer(strong), Some(5));
    assert!(heap.upgrade(&weak).is_none());
    heap.drop_weak(weak);
    assert!(heap.is_freed_at(0));
}

#[test]
fn upgrade_with_strong_alive_increments() {
    let mut heap: Heap<i32> = Heap::new();
    let strong = heap.allocate(5);
    let weak = heap.downgrade(&strong);
    let upgraded = heap.upgrade(&weak).expect("payload is still live");
    assert_eq!(heap.strong_count(&strong), 2);
    assert_eq!(*heap.read(&upgraded), 5);
    heap.drop_weak(weak);
    assert!(heap.drop_pointer(upgraded).is_none());
    assert_eq!(heap.strong_count(&strong), 1);
    assert_eq!(heap.drop_pointer(strong), Some(5));
}

/// A node of a two-element ownership graph: at most one owning edge and at
/// most one observing edge out of each node.
struct Node {
    owns: Option<SharedPointer>,
    watches: Option<WeakRef>,
}

#[test]
fn weak_edge_breaks_the_cycle() {
    let mut heap: Heap<Node> = Heap::new();
    let a = heap.allocate(Node {
        owns: None,
        watches: None,
    });
    let b = heap.allocate(Node {
        owns: None,
        watches: None,
    });
    let a_index = a.index();
    let b_index = b.index();

    // a watches b through a weak edge; b owns a through a strong edge.
    let weak_to_b = heap.downgrade(&b);
    heap.replace(
        &a,
        Node {
            owns: None,
            watches: Some(weak_to_b),
        },
    );
    let strong_to_a = heap.clone_pointer(&a);
    heap.replace(
        &b,
        Node {
            owns: Some(strong_to_a),
            watches: None,
        },
    );

    // Give up the external handles; the weak edge lets both finalize.
    assert!(heap.drop_pointer(a).is_none());
    let b_node = heap.drop_pointer(b).expect("b had the last strong handle");
    let a_node = heap
        .drop_pointer(b_node.owns.expect("b owned a"))
        .expect("a had one strong handle left");
    heap.drop_weak(a_node.watches.expect("a watched b"));

    assert_eq!(heap.finalizer_runs_at(a_index), 1);
    assert_eq!(heap.finalizer_runs_at(b_index), 1);
    assert!(heap.is_freed_at(a_index));
    assert!(heap.is_freed_at(b_index));
    // The owner b went down first and its teardown took a with it.
    assert_eq!(heap.finalization_log(), &vec![b_index, a_index]);
}

#[test]
fn strong_cycle_leaks_by_design() {
    let mut heap: Heap<Node> = Heap::new();
    let a = heap.allocate(Node {
        owns: None,
        watches: None,
    });
    let b = heap.allocate(Node {
        owns: None,
        watches: None,
    });
    let a_index = a.index();
    let b_index = b.index();

    // Both edges strong: a owns b and b owns a.
    let strong_to_b = heap.clone_pointer(&b);
    heap.replace(
        &a,
        Node {
            owns: Some(strong_to_b),
            watches: None,
        },
    );
    let strong_to_a = heap.clone_pointer(&a);
    heap.replace(
        &b,
        Node {
            owns: Some(strong_to_a),
            watches: None,
        },
    );

    // Give up the external handles: the in-payload handles keep both
    // strong counts at 1, so neither finalizer runs.  The leak is the
    // documented, intentional outcome.
    assert!(heap.drop_pointer(a).is_none());
    assert!(heap.drop_pointer(b).is_none());
    assert_eq!(heap.strong_count_at(a_index), 1);
    assert_eq!(heap.strong_count_at(b_index), 1);
    assert_eq!(heap.finalizer_runs_at(a_index), 0);
    assert_eq!(heap.finalizer_runs_at(b_index), 0);
}

#[test]
fn linked_lists_can_share_and_cycle() {
    let mut heap: Heap<List> = Heap::new();
    let nil = heap.allocate(List::Nil);
    let a = heap.allocate(List::Cons(5, nil));
    assert_eq!(heap.strong_count(&a), 1);
    assert_eq!(heap.read(&a).head(), Some(5));
    assert!(heap.read(&a).tail().is_some());

    // b starts with a as its tail: the suffix is shared, not copied.
    let a_again = heap.clone_pointer(&a);
    let b = heap.allocate(List::Cons(10, a_again));
    assert_eq!(heap.strong_count(&a), 2);
    assert_eq!(heap.strong_count(&b), 1);

    // Point a's tail at b: now a and b own each other.
    let b_again = heap.clone_pointer(&b);
    let old_a = heap.replace(&a, List::Cons(5, b_again));
    if let List::Cons(_, old_tail) = old_a {
        assert!(heap.drop_pointer(old_tail).is_some());
    }
    assert_eq!(heap.strong_count(&b), 2);
    assert_eq!(heap.strong_count(&a), 2);

    // Give up the external handles: the cycle keeps both counts at one,
    // and neither payload is ever finalized.
    let a_index = a.index();
    let b_index = b.index();
    assert!(heap.drop_pointer(a).is_none());
    assert!(heap.drop_pointer(b).is_none());
    assert_eq!(heap.strong_count_at(a_index), 1);
    assert_eq!(heap.strong_count_at(b_index), 1);
    assert_eq!(heap.finalizer_runs_at(a_index), 0);
    assert_eq!(heap.finalizer_runs_at(b_index), 0);
}

#[test]
fn finalizer_runs_exactly_once_over_a_lifecycle() {
    let mut heap: Heap<&'static str> = Heap::new();
    let first = heap.allocate("payload");
    let index = first.index();
    let second = heap.clone_pointer(&first);
    let weak = heap.downgrade(&first);
    assert_eq!(heap.finalizer_runs_at(index), 0);
    assert!(heap.drop_pointer(second).is_none());
    assert_eq!(heap.finalizer_runs_at(index), 0);
    assert_eq!(heap.drop_pointer(first), Some("payload"));
    assert_eq!(heap.finalizer_runs_at(index), 1);
    assert!(heap.upgrade(&weak).is_none());
    assert_eq!(heap.finalizer_runs_at(index), 1);
    heap.drop_weak(weak);
    assert_eq!(heap.finalizer_runs_at(index), 1);
    assert!(heap.is_freed_at(index));
    assert_eq!(heap.finalization_log(), &vec![index]);
}

#[test]
fn replace_swaps_the_payload() {
    let mut heap: Heap<i32> = Heap::new();
    let handle = heap.allocate(1);
    assert_eq!(heap.replace(&handle, 2), 1);
    assert_eq!(*heap.read(&handle), 2);
    assert_eq!(heap.strong_count(&handle), 1);
    assert_eq!(heap.drop_pointer(handle), Some(2));
}

#[test]
fn blocks_are_independent() {
    let mut heap: Heap<i32> = Heap::new();
    let first = heap.allocate(1);
    let second = heap.allocate(2);
    let _third = heap.clone_pointer(&second);
    assert_eq!(heap.block_count(), 2);
    assert_eq!(heap.strong_count(&first), 1);
    assert_eq!(heap.strong_count(&second), 2);
    assert_eq!(heap.weak_count_at(0), 0);
    assert_eq!(heap.weak_count_at(1), 0);
}
