use linked_stack::first::List;

#[test]
fn first_basics() {
    let mut list = List::new();

    assert_eq!(list.pop(), None);

    list.push(1);
    list.push(2);
    list.push(3);

    assert_eq!(list.pop(), Some(3));
    assert_eq!(list.pop(), Some(2));

    list.push(4);
    list.push(5);

    assert_eq!(list.pop(), Some(5));
    assert_eq!(list.pop(), Some(4));

    assert_eq!(list.pop(), Some(1));
    assert_eq!(list.pop(), None);
}

#[test]
fn first_pop_on_empty_leaves_it_usable() {
    let mut list = List::new();
    assert_eq!(list.pop(), None);
    assert_eq!(list.pop(), None);
    list.push(7);
    assert_eq!(list.pop(), Some(7));
    assert_eq!(list.pop(), None);
    assert_eq!(list.pop(), None);
}

#[test]
fn first_pops_reverse_a_run_of_pushes() {
    let pushed: Vec<i32> = vec![10, -3, 0, 10, i32::MAX, i32::MIN, 42];
    let mut list = List::new();
    for v in pushed.iter() {
        list.push(*v);
    }
    let mut popped: Vec<i32> = Vec::new();
    let mut n: usize = 0;
    while n < pushed.len() {
        match list.pop() {
            Some(v) => popped.push(v),
            None => panic!("the stack ran out after {} pops", n),
        }
        n += 1;
    }
    assert_eq!(popped, vec![42, i32::MIN, i32::MAX, 10, 0, -3, 10]);
    assert_eq!(list.pop(), None);
}

#[test]
fn first_pops_return_to_the_stack_below() {
    let mut list = List::new();
    list.push(1);
    list.push(2);
    list.push(30);
    list.push(40);
    assert_eq!(list.pop(), Some(40));
    assert_eq!(list.pop(), Some(30));
    assert_eq!(list.pop(), Some(2));
    assert_eq!(list.pop(), Some(1));
    assert_eq!(list.pop(), None);
}

#[test]
fn first_long_chain_is_dropped() {
    let mut list = List::new();
    let mut i: i32 = 0;
    while i < 100_000 {
        list.push(i);
        i += 1;
    }
    drop(list);
}

#[test]
fn first_long_chain_pops_in_order() {
    let mut list = List::new();
    let mut i: i32 = 0;
    while i < 100_000 {
        list.push(i);
        i += 1;
    }
    while i > 0 {
        i -= 1;
        assert_eq!(list.pop(), Some(i));
    }
    assert_eq!(list.pop(), None);
}
