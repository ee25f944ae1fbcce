use linked_stacks::a_bad_stack::List;

#[test]
fn a_bad_stack_should_push_properly() {
    let mut list = List::<u8>::new();

    assert_eq!(list.pop(), None);

    list.push(2);
    list.push(4);
    list.push(6);

    assert_eq!(list.pop(), Some(6));
    assert_eq!(list.pop(), Some(4));

    list.push(12);
    list.push(13);
    list.push(14);

    assert_eq!(list.pop(), Some(14));
    assert_eq!(list.pop(), Some(13));
    assert_eq!(list.pop(), Some(12));
    assert_eq!(list.pop(), Some(2));

    assert_eq!(list.pop(), None);
}

#[test]
fn lifo_order_over_many_pushes() {
    let mut list = List::<u32>::new();
    for i in 0..100u32 {
        list.push(i);
    }
    for i in (0..100u32).rev() {
        assert_eq!(list.pop(), Some(i));
    }
    assert_eq!(list.pop(), None);
}

#[test]
fn popping_empty_signals_absence_and_changes_nothing() {
    let mut list = List::<u8>::new();
    assert_eq!(list.pop(), None);
    assert_eq!(list.pop(), None);
    assert_eq!(list.pop(), None);
    list.push(7);
    assert_eq!(list.pop(), Some(7));
    assert_eq!(list.pop(), None);
    assert_eq!(list.pop(), None);
}

#[test]
fn works_over_plain_movable_values() {
    struct Widget {
        label: String,
    }

    let mut list = List::<Widget>::new();
    list.push(Widget { label: String::from("first") });
    list.push(Widget { label: String::from("second") });
    match list.pop() {
        Some(w) => assert_eq!(w.label, "second"),
        None => panic!("expected an element"),
    }
    match list.pop() {
        Some(w) => assert_eq!(w.label, "first"),
        None => panic!("expected an element"),
    }
    assert!(list.pop().is_none());
}

#[test]
fn teardown_of_long_chain_completes() {
    let mut list = List::<u64>::new();
    for i in 0..300_000u64 {
        list.push(i);
    }
    drop(list);
}
