use flex::Flex;

#[test]
fn lend_from_str() {
    let flex = Flex::Lend("hello");
    assert_eq!(&*flex, "hello");
}

#[test]
fn lend_from_slice() {
    let data = [1, 2, 3];
    let flex = Flex::Lend(&data[..]);
    assert_eq!(&*flex, &[1, 2, 3]);
}

#[test]
fn give_from_box() {
    let flex = Flex::Give(Box::new(42));
    assert_eq!(*flex, 42);
}

#[test]
fn give_from_box_slice() {
    let flex = Flex::Give(vec![1, 2, 3].into_boxed_slice());
    assert_eq!(&*flex, &[1, 2, 3]);
}

#[test]
fn give_from_box_str() {
    let flex = Flex::Give(String::from("hello").into_boxed_str());
    assert_eq!(&*flex, "hello");
}

#[test]
fn default_slice() {
    let flex: Flex<[i32]> = Flex::default();
    assert_eq!(&*flex, &[]);
}

#[test]
fn default_str() {
    let flex: Flex<str> = Flex::default();
    assert_eq!(&*flex, "");
}

#[test]
fn default_is_lend() {
    let slice: Flex<[u8]> = Flex::default();
    assert!(matches!(slice, Flex::Lend(_)));
    let text: Flex<str> = Flex::default();
    assert!(matches!(text, Flex::Lend(_)));
}

#[test]
fn slice_element() {
    let data = [1, 2, 3, 4, 5];
    let flex = Flex::Lend(&data[..]);
    assert_eq!(flex[0], 1);
    assert_eq!(flex[4], 5);
}

#[test]
fn slice_range() {
    let data = [1, 2, 3, 4, 5];
    let flex = Flex::Lend(&data[..]);
    assert_eq!(&flex[1..4], &[2, 3, 4]);
    assert_eq!(&flex[..3], &[1, 2, 3]);
    assert_eq!(&flex[3..], &[4, 5]);
}

#[test]
fn str_range() {
    let flex = Flex::Lend("hello");
    assert_eq!(&flex[0..1], "h");
    assert_eq!(&flex[1..4], "ell");
    assert_eq!(&flex[..], "hello");
}

#[test]
fn give_slice_element() {
    let flex = Flex::Give(vec![1, 2, 3, 4, 5].into_boxed_slice());
    assert_eq!(flex[2], 3);
}

#[test]
fn give_str_range() {
    let flex = Flex::Give(String::from("hello").into_boxed_str());
    assert_eq!(&flex[1..4], "ell");
}

// `Flex` has no `IntoIterator` impl for `&Flex`: Verus does not accept the
// trait's `IntoIter` associated type. Iteration goes through the value that
// `Deref` gives, which is what such an impl would hand on.
#[test]
fn lend_collect() {
    let flex = Flex::Lend(&[1, 2, 3][..]);
    let collected: Vec<&i32> = (&*flex).into_iter().collect();
    assert_eq!(collected, vec![&1, &2, &3]);
}

#[test]
fn lend_for_loop() {
    let flex = Flex::Lend(&[1, 2, 3][..]);
    let mut sum = 0;
    for &value in &*flex {
        sum += value;
    }
    assert_eq!(sum, 6);
}

#[test]
fn give_collect() {
    let flex = Flex::Give(vec![1, 2, 3].into_boxed_slice());
    let collected: Vec<&i32> = (&*flex).into_iter().collect();
    assert_eq!(collected, vec![&1, &2, &3]);
}

#[test]
fn into_box_from_lend() {
    let flex = Flex::Lend(&[1, 2, 3][..]);
    let boxed = flex.into_box();
    assert_eq!(&*boxed, &[1, 2, 3]);
}

#[test]
fn into_box_from_give() {
    let flex = Flex::Give(vec![1, 2, 3].into_boxed_slice());
    let boxed = flex.into_box();
    assert_eq!(&*boxed, &[1, 2, 3]);
}

#[test]
fn into_box_from_lend_str() {
    let text = String::from("round trip");
    let boxed = Flex::from(text.as_str()).into_box();
    assert_eq!(&*boxed, "round trip");
}

#[test]
fn claim_lend_to_static() {
    let borrowed = Flex::Lend(&[1, 2, 3][..]);
    let owned: Flex<'static, [i32]> = borrowed.claim();
    assert_eq!(&*owned, &[1, 2, 3]);
}

#[test]
fn claim_give_to_static() {
    let flex = Flex::Give(vec![1, 2, 3].into_boxed_slice());
    let claimed: Flex<'static, [i32]> = flex.claim();
    assert_eq!(&*claimed, &[1, 2, 3]);
}

#[test]
fn claim_str() {
    let borrowed = Flex::Lend("hello");
    let owned: Flex<'static, str> = borrowed.claim();
    assert_eq!(&*owned, "hello");
}

#[test]
fn claim_is_give() {
    let data = [5, 6];
    let owned: Flex<'static, [i32]> = Flex::from(&data[..]).claim();
    assert!(matches!(owned, Flex::Give(_)));
}

#[test]
fn claim_twice_keeps_allocation() {
    let data = [1, 2, 3];
    let once: Flex<'static, [i32]> = Flex::Lend(&data[..]).claim();
    let address = once.as_ptr();
    let twice: Flex<'static, [i32]> = once.claim();
    assert_eq!(twice.as_ptr(), address);
    assert_eq!(&*twice, &[1, 2, 3]);
}

#[test]
fn give_drop_releases_value_once() {
    let shared = std::rc::Rc::new(5);
    let flex: Flex<std::rc::Rc<i32>> = Flex::Give(Box::new(shared.clone()));
    assert_eq!(std::rc::Rc::strong_count(&shared), 2);
    drop(flex);
    assert_eq!(std::rc::Rc::strong_count(&shared), 1);
}

#[test]
fn lend_drop_releases_nothing() {
    let shared = std::rc::Rc::new(5);
    let flex = Flex::Lend(&shared);
    drop(flex);
    assert_eq!(std::rc::Rc::strong_count(&shared), 1);
    assert_eq!(*shared, 5);
}
