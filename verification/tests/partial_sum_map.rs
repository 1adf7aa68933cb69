use wasm_engine::partial_sum_map::{Error, PartialSumMap};

#[test]
fn empty_partial_map() {
    let map = PartialSumMap::<u32, u32>::new();
    assert_eq!(None, map.find(0));
}

#[test]
fn basic_function() {
    let mut map = PartialSumMap::<u32, u32>::new();
    assert_eq!(None, map.max_index());
    for i in 0..10 {
        map.push(1, i).unwrap();
        assert_eq!(Some(i), map.max_index());
    }
    for i in 0..10 {
        assert_eq!(Some(&i), map.find(i));
    }
    assert_eq!(None, map.find(10));
    assert_eq!(None, map.find(0xFFFF_FFFF));
}

#[test]
fn zero_count() {
    let mut map = PartialSumMap::<u32, u32>::new();
    assert_eq!(Ok(()), map.push(0, 0));
    assert_eq!(None, map.max_index());
    assert_eq!(Ok(()), map.push(10, 42));
    assert_eq!(Some(9), map.max_index());
    assert_eq!(Ok(()), map.push(0, 43));
    assert_eq!(Some(9), map.max_index());
}

#[test]
fn close_to_limit() {
    let mut map = PartialSumMap::<u32, u32>::new();
    assert_eq!(Ok(()), map.push(0xFFFF_FFFF, 42)); // we added values 0..=0xFFFF_FFFE
    assert_eq!(Some(&42), map.find(0xFFFF_FFFE));
    assert_eq!(None, map.find(0xFFFF_FFFF));

    assert_eq!(Err(Error::Overflow), map.push(100, 93)); // overflowing does not change the map
    assert_eq!(Some(&42), map.find(0xFFFF_FFFE));
    assert_eq!(None, map.find(0xFFFF_FFFF));

    assert_eq!(Ok(()), map.push(1, 322)); // we added value at index 0xFFFF_FFFF
    assert_eq!(Some(&42), map.find(0xFFFF_FFFE));
    assert_eq!(Some(&322), map.find(0xFFFF_FFFF));

    assert_eq!(Err(Error::Overflow), map.push(1, 1234)); // can't add any more stuff...
    assert_eq!(Some(&42), map.find(0xFFFF_FFFE));
    assert_eq!(Some(&322), map.find(0xFFFF_FFFF));
}

#[test]
fn runs_are_found_by_index() {
    let mut map = PartialSumMap::<u32, u8>::new();
    assert_eq!(Ok(()), map.push(1, 7));
    assert_eq!(Ok(()), map.push(10, 8));
    assert_eq!(Ok(()), map.push(5, 9));
    assert_eq!(Some(15), map.max_index());
    assert_eq!(Some(&7), map.find(0));
    assert_eq!(Some(&8), map.find(1));
    assert_eq!(Some(&8), map.find(10));
    assert_eq!(Some(&9), map.find(11));
    assert_eq!(Some(&9), map.find(15));
    assert_eq!(None, map.find(16));
}

#[test]
fn overflow_has_a_message() {
    assert_eq!("partial sum overflow", Error::Overflow.message());
}
