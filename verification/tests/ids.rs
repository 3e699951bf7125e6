use chat_directory::ids::find_id;
use chat_directory::ids::holds_id;
use chat_directory::ids::remove_ref;
use uuid::Uuid;

#[test]
fn find_id_gives_the_first_place() {
    let a = Uuid::from_u128(1);
    let b = Uuid::from_u128(2);
    let c = Uuid::from_u128(3);
    let list = vec![a, b, a, b];
    assert_eq!(find_id(&list, &a), Some(0));
    assert_eq!(find_id(&list, &b), Some(1));
    assert_eq!(find_id(&list, &c), None);
    assert_eq!(find_id(&Vec::new(), &a), None);
}

#[test]
fn holds_id_tells_identifiers_apart() {
    let a = Uuid::from_u128(0x0123_4567_89ab_cdef_0123_4567_89ab_cdef);
    let close = Uuid::from_u128(0x0123_4567_89ab_cdef_0123_4567_89ab_cdee);
    let list = vec![a];
    assert!(holds_id(&list, &a));
    assert!(holds_id(&list, &Uuid::from_u128(0x0123_4567_89ab_cdef_0123_4567_89ab_cdef)));
    assert!(!holds_id(&list, &close));
    assert!(!holds_id(&Vec::new(), &a));
}

#[test]
fn remove_ref_takes_the_first_entry_only() {
    let a = Uuid::from_u128(1);
    let b = Uuid::from_u128(2);
    let c = Uuid::from_u128(3);
    let mut list = vec![a, b, a, c];
    assert!(remove_ref(&mut list, &a));
    assert_eq!(list, vec![b, a, c]);
    assert!(remove_ref(&mut list, &a));
    assert_eq!(list, vec![b, c]);
    assert!(!remove_ref(&mut list, &a));
    assert_eq!(list, vec![b, c]);
    assert!(remove_ref(&mut list, &c));
    assert!(remove_ref(&mut list, &b));
    assert!(list.is_empty());
    assert!(!remove_ref(&mut list, &b));
}
