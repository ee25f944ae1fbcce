use linked_stacks::a_persistent_stack::List;

fn contents(list: &List<i32>) -> Vec<i32> {
    let mut out = Vec::new();
    let mut cur = list.tail();
    match list.head() {
        None => return out,
        Some(e) => out.push(*e),
    }
    while let Some(e) = cur.head() {
        out.push(*e);
        cur = cur.tail();
    }
    out
}

#[test]
fn empty_stack_has_no_head_and_an_empty_tail() {
    let list = List::<i32>::new();
    assert!(list.head().is_none());
    let tail = list.tail();
    assert!(tail.head().is_none());
}

#[test]
fn prepend_and_tail_share_without_disturbing_older_views() {
    let a = List::new().prepend(1).prepend(2).prepend(3);
    assert_eq!(contents(&a), vec![3, 2, 1]);

    let b = a.tail();
    assert_eq!(contents(&b), vec![2, 1]);
    assert_eq!(contents(&a), vec![3, 2, 1]);

    let c = b.prepend(9);
    assert_eq!(contents(&c), vec![9, 2, 1]);
    assert_eq!(contents(&b), vec![2, 1]);
    assert_eq!(contents(&a), vec![3, 2, 1]);
}

#[test]
fn head_sees_the_newest_element() {
    let list = List::new().prepend(7);
    assert_eq!(list.head(), Some(&7));
    let longer = list.prepend(8);
    assert_eq!(longer.head(), Some(&8));
    assert_eq!(list.head(), Some(&7));
}
