use lists::first::List;

#[test]
fn can_be_constructed() {
    let _ = List::new;
}

#[test]
fn first_push_value_pops_value() {
    let mut list = List::new();
    list.push(1);
    assert_eq!(list.pop(), Some(1));
}

#[test]
fn first_push_pop_multiple_values() {
    let mut list = List::new();
    list.push(1);
    list.push(2);
    list.push(3);
    assert_eq!(list.pop(), Some(3));
    assert_eq!(list.pop(), Some(2));
    assert_eq!(list.pop(), Some(1));
}

#[test]
fn first_push_pop_and_repushes() {
    let mut list = List::new();
    list.push(1);
    assert_eq!(list.pop(), Some(1));
    list.push(2);
    assert_eq!(list.pop(), Some(2));
}

#[test]
fn first_no_push_gets_none() {
    let mut list = List::new();
    assert_eq!(list.pop(), None)
}

#[test]
fn first_push_pop_gets_value_and_none_after() {
    let mut list = List::new();
    list.push(1);
    assert_eq!(list.pop(), Some(1));
    assert_eq!(list.pop(), None)
}

#[test]
fn first_long_stack_is_dropped_without_deep_recursion() {
    let mut list = List::new();
    let mut i: i32 = 0;
    while i < 100_000 {
        list.push(i);
        i += 1;
    }
    drop(list);
}

#[test]
fn first_pops_in_reverse_order_then_none() {
    let mut list = List::new();
    let values = [5, -3, 0, i32::MAX, i32::MIN];
    for v in values {
        list.push(v);
    }
    for v in values.iter().rev() {
        assert_eq!(list.pop(), Some(*v));
    }
    assert_eq!(list.pop(), None);
    assert_eq!(list.pop(), None);
}
