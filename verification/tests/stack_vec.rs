use pi::stack_vec::StackVec;

#[test]
fn new_vector_is_empty() {
    let mut storage = [0u8; 4];
    let v = StackVec::new(&mut storage);
    assert_eq!(v.len(), 0);
    assert_eq!(v.capacity(), 4);
    assert!(v.is_empty());
    assert!(!v.is_full());
}

#[test]
fn new_vector_on_no_storage_is_empty_and_full() {
    let mut storage: [u8; 0] = [];
    let mut v = StackVec::new(&mut storage);
    assert_eq!(v.capacity(), 0);
    assert!(v.is_empty());
    assert!(v.is_full());
    assert_eq!(v.push(1), Err(()));
    assert_eq!(v.pop(), None);
}

#[test]
fn with_len_holds_the_first_values_of_the_storage() {
    let mut storage = [1u8, 2, 3, 4];
    let mut v = StackVec::with_len(&mut storage, 2);
    assert_eq!(v.len(), 2);
    assert_eq!(v.capacity(), 4);
    assert_eq!(v.pop(), Some(2));
    assert_eq!(v.pop(), Some(1));
    assert_eq!(v.pop(), None);

    let mut storage = [1u8, 2, 3, 4];
    let v = StackVec::with_len(&mut storage, 4);
    assert!(v.is_full());
    let mut storage = [1u8, 2, 3, 4];
    let v = StackVec::with_len(&mut storage, 0);
    assert!(v.is_empty());
}

#[test]
fn push_appends_until_the_vector_is_full() {
    let mut storage = [0u32; 3];
    let mut v = StackVec::new(&mut storage);
    assert_eq!(v.push(10), Ok(()));
    assert_eq!(v.len(), 1);
    assert_eq!(v.push(20), Ok(()));
    assert_eq!(v.push(30), Ok(()));
    assert_eq!(v.len(), 3);
    assert!(v.is_full());
    assert_eq!(v.push(40), Err(()));
    assert_eq!(v.len(), 3);
    assert_eq!(v.as_slice(), [10, 20, 30]);
}

#[test]
fn push_writes_into_the_storage() {
    let mut storage = [0u32; 3];
    {
        let mut v = StackVec::new(&mut storage);
        v.push(7).unwrap();
        v.push(8).unwrap();
    }
    assert_eq!(storage, [7, 8, 0]);
}

#[test]
fn pop_returns_the_values_newest_first() {
    let mut storage = [0i64; 3];
    let mut v = StackVec::new(&mut storage);
    assert_eq!(v.pop(), None);
    v.push(-1).unwrap();
    v.push(-2).unwrap();
    assert_eq!(v.pop(), Some(-2));
    assert_eq!(v.len(), 1);
    v.push(-3).unwrap();
    assert_eq!(v.pop(), Some(-3));
    assert_eq!(v.pop(), Some(-1));
    assert_eq!(v.pop(), None);
    assert!(v.is_empty());
}

#[test]
fn pop_clones_the_value() {
    let mut storage = [String::new(), String::new()];
    let mut v = StackVec::new(&mut storage);
    v.push(String::from("first")).unwrap();
    v.push(String::from("second")).unwrap();
    assert_eq!(v.pop(), Some(String::from("second")));
    assert_eq!(v.as_slice()[1], "second");
    assert_eq!(v.len(), 1);
}

#[test]
fn truncate_shortens_and_never_lengthens() {
    let mut storage = [0u8; 5];
    let mut v = StackVec::new(&mut storage);
    for value in 1..=4 {
        v.push(value).unwrap();
    }
    v.truncate(10);
    assert_eq!(v.len(), 4);
    v.truncate(4);
    assert_eq!(v.len(), 4);
    v.truncate(2);
    assert_eq!(v.len(), 2);
    assert_eq!(v.capacity(), 5);
    assert_eq!(v.pop(), Some(2));
    v.truncate(0);
    assert!(v.is_empty());
    assert_eq!(v.as_slice(), [1, 2, 3, 4, 0]);
}

#[test]
fn slices_are_the_whole_storage() {
    let mut storage = [9u8, 9, 9];
    let mut v = StackVec::new(&mut storage);
    v.push(1).unwrap();
    assert_eq!(v.as_slice(), [1, 9, 9]);
    assert_eq!(v.as_mut_slice(), [1, 9, 9]);
    v.as_mut_slice()[2] = 5;
    assert_eq!(v.as_slice(), [1, 9, 5]);
    assert_eq!(v.len(), 1);
    let slice = v.into_slice();
    assert_eq!(slice, [1, 9, 5]);
    slice[1] = 4;
    assert_eq!(storage, [1, 4, 5]);
}

#[test]
fn into_iter_walks_the_values_oldest_first() {
    let mut storage = [0u16; 4];
    let mut v = StackVec::new(&mut storage);
    v.push(3).unwrap();
    v.push(1).unwrap();
    v.push(2).unwrap();
    let mut walk = v.into_iter();
    assert_eq!(walk.next(), Some(3));
    assert_eq!(walk.next(), Some(1));
    assert_eq!(walk.next(), Some(2));
    assert_eq!(walk.next(), None);
    assert_eq!(walk.next(), None);
}

#[test]
fn into_iter_of_an_empty_vector_ends_at_once() {
    let mut storage = [5u16; 4];
    let v = StackVec::new(&mut storage);
    let mut walk = v.into_iter();
    assert_eq!(walk.next(), None);
}

#[test]
fn into_iter_stops_at_the_length() {
    let mut storage = [1u16, 2, 3, 4];
    let v = StackVec::with_len(&mut storage, 2);
    let mut walk = v.into_iter();
    assert_eq!(walk.next(), Some(1));
    assert_eq!(walk.next(), Some(2));
    assert_eq!(walk.next(), None);
}

#[test]
fn deref_gives_the_storage() {
    let mut storage = [1u8, 2, 3];
    let mut v = StackVec::with_len(&mut storage, 1);
    {
        let whole: &&mut [u8] = std::ops::Deref::deref(&v);
        assert_eq!(whole.len(), 3);
        assert_eq!(whole[2], 3);
    }
    {
        let whole: &mut &mut [u8] = std::ops::DerefMut::deref_mut(&mut v);
        whole[1] = 7;
    }
    assert_eq!(v.len(), 1);
    assert_eq!(v.as_slice(), [1, 7, 3]);
}
