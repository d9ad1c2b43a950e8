use frame_support::BoundedVec;
use pallet_books::{BookRecord, Config, DispatchError, Error, Event, Origin, Pallet};

struct Test;

impl Config for Test {
    type AccountId = u64;
    type WeightInfo = ();
}

struct Named;

impl Config for Named {
    type AccountId = String;
    type WeightInfo = ();
}

const ALICE: u64 = 1;
const BOB: u64 = 2;

fn record(bytes: &[u8]) -> BookRecord {
    BoundedVec::try_from(bytes.to_vec()).unwrap()
}

#[test]
fn create_then_get_then_overflow() {
    let mut pallet = Pallet::<Test>::new();
    assert_eq!(pallet.create_book(Origin::Signed(ALICE), 1, b"hello".to_vec()), Ok(()));
    assert_eq!(pallet.books().get(&(ALICE, 1)), Some(record(b"hello")));
    assert_eq!(
        pallet.events(),
        &vec![Event::BooksStored { book_id: 1, book: record(b"hello"), who: ALICE }]
    );

    assert_eq!(pallet.get_book(Origin::Signed(ALICE), 1), Ok(()));
    assert_eq!(pallet.events().len(), 2);
    assert_eq!(
        pallet.events()[1],
        Event::BooksRetrieved { book_id: 1, book: Some(record(b"hello")), who: ALICE }
    );

    assert_eq!(pallet.get_book(Origin::Signed(ALICE), 2), Ok(()));
    assert_eq!(pallet.events().len(), 3);
    assert_eq!(
        pallet.events()[2],
        Event::BooksRetrieved { book_id: 2, book: None, who: ALICE }
    );

    assert_eq!(
        pallet.create_book(Origin::Signed(ALICE), 1, vec![0u8; 257]),
        Err(DispatchError::Module(Error::StorageOverflow))
    );
    assert_eq!(pallet.books().get(&(ALICE, 1)), Some(record(b"hello")));
    assert_eq!(pallet.events().len(), 3);
}

#[test]
fn new_pallet_is_empty() {
    let pallet = Pallet::<Test>::new();
    assert!(pallet.events().is_empty());
    assert_eq!(pallet.books().get(&(ALICE, 0)), None);
    assert_eq!(pallet.books().get(&(BOB, u32::MAX)), None);
}

#[test]
fn empty_book_is_stored() {
    let mut pallet = Pallet::<Test>::new();
    assert_eq!(pallet.create_book(Origin::Signed(ALICE), 0, Vec::new()), Ok(()));
    let stored = pallet.books().get(&(ALICE, 0)).unwrap();
    assert_eq!(stored.len(), 0);
    assert_eq!(
        pallet.events()[0],
        Event::BooksStored { book_id: 0, book: record(b""), who: ALICE }
    );
}

#[test]
fn book_of_256_bytes_is_stored() {
    let mut pallet = Pallet::<Test>::new();
    let bytes: Vec<u8> = (0..256u32).map(|i| (i % 251) as u8).collect();
    assert_eq!(pallet.create_book(Origin::Signed(ALICE), 9, bytes.clone()), Ok(()));
    let stored = pallet.books().get(&(ALICE, 9)).unwrap();
    assert_eq!(stored.len(), 256);
    assert_eq!(stored.into_inner(), bytes);
}

#[test]
fn book_of_257_bytes_overflows() {
    let mut pallet = Pallet::<Test>::new();
    assert_eq!(
        pallet.create_book(Origin::Signed(ALICE), 9, vec![7u8; 257]),
        Err(DispatchError::Module(Error::StorageOverflow))
    );
    assert_eq!(pallet.books().get(&(ALICE, 9)), None);
    assert!(pallet.events().is_empty());
}

#[test]
fn long_book_overflows_and_keeps_the_store() {
    let mut pallet = Pallet::<Test>::new();
    assert_eq!(pallet.create_book(Origin::Signed(ALICE), 3, b"kept".to_vec()), Ok(()));
    assert_eq!(
        pallet.create_book(Origin::Signed(ALICE), 3, vec![1u8; 10_000]),
        Err(DispatchError::Module(Error::StorageOverflow))
    );
    assert_eq!(
        pallet.create_book(Origin::Signed(BOB), 4, vec![1u8; 300]),
        Err(DispatchError::Module(Error::StorageOverflow))
    );
    assert_eq!(pallet.books().get(&(ALICE, 3)), Some(record(b"kept")));
    assert_eq!(pallet.books().get(&(BOB, 4)), None);
    assert_eq!(pallet.events().len(), 1);
}

#[test]
fn create_book_refuses_origins_that_are_not_signed() {
    for origin in [Origin::Unsigned, Origin::Root, Origin::Absent] {
        let mut pallet = Pallet::<Test>::new();
        assert_eq!(pallet.create_book(Origin::Signed(ALICE), 1, b"mine".to_vec()), Ok(()));
        assert_eq!(
            pallet.create_book(origin, 1, b"other".to_vec()),
            Err(DispatchError::BadOrigin)
        );
        assert_eq!(pallet.books().get(&(ALICE, 1)), Some(record(b"mine")));
        assert_eq!(pallet.events().len(), 1);
    }
}

#[test]
fn get_book_refuses_origins_that_are_not_signed() {
    for origin in [Origin::Unsigned, Origin::Root, Origin::Absent] {
        let mut pallet = Pallet::<Test>::new();
        assert_eq!(pallet.create_book(Origin::Signed(ALICE), 1, b"mine".to_vec()), Ok(()));
        assert_eq!(pallet.get_book(origin, 1), Err(DispatchError::BadOrigin));
        assert_eq!(pallet.books().get(&(ALICE, 1)), Some(record(b"mine")));
        assert_eq!(pallet.events().len(), 1);
    }
}

#[test]
fn bad_origin_comes_before_overflow() {
    let mut pallet = Pallet::<Test>::new();
    assert_eq!(
        pallet.create_book(Origin::Root, 1, vec![0u8; 257]),
        Err(DispatchError::BadOrigin)
    );
    assert!(pallet.events().is_empty());
}

#[test]
fn second_create_overwrites_first() {
    let mut pallet = Pallet::<Test>::new();
    assert_eq!(pallet.create_book(Origin::Signed(ALICE), 5, b"first draft".to_vec()), Ok(()));
    assert_eq!(pallet.create_book(Origin::Signed(ALICE), 5, b"second".to_vec()), Ok(()));
    assert_eq!(pallet.books().get(&(ALICE, 5)), Some(record(b"second")));
    assert_eq!(pallet.get_book(Origin::Signed(ALICE), 5), Ok(()));
    assert_eq!(
        pallet.events()[2],
        Event::BooksRetrieved { book_id: 5, book: Some(record(b"second")), who: ALICE }
    );
}

#[test]
fn overwrite_after_failed_create_is_seen() {
    let mut pallet = Pallet::<Test>::new();
    assert_eq!(
        pallet.create_book(Origin::Signed(ALICE), 5, vec![0u8; 257]),
        Err(DispatchError::Module(Error::StorageOverflow))
    );
    assert_eq!(pallet.create_book(Origin::Signed(ALICE), 5, b"second".to_vec()), Ok(()));
    assert_eq!(pallet.books().get(&(ALICE, 5)), Some(record(b"second")));
}

#[test]
fn owners_do_not_share_numbers() {
    let mut pallet = Pallet::<Test>::new();
    assert_eq!(pallet.create_book(Origin::Signed(BOB), 1, b"bob's".to_vec()), Ok(()));
    assert_eq!(pallet.create_book(Origin::Signed(ALICE), 1, b"alice's".to_vec()), Ok(()));
    assert_eq!(pallet.books().get(&(BOB, 1)), Some(record(b"bob's")));
    assert_eq!(pallet.books().get(&(ALICE, 1)), Some(record(b"alice's")));
    assert_eq!(pallet.get_book(Origin::Signed(BOB), 1), Ok(()));
    assert_eq!(
        pallet.events()[2],
        Event::BooksRetrieved { book_id: 1, book: Some(record(b"bob's")), who: BOB }
    );
}

#[test]
fn create_by_one_owner_leaves_the_other_without_a_book() {
    let mut pallet = Pallet::<Test>::new();
    assert_eq!(pallet.create_book(Origin::Signed(ALICE), 1, b"alice's".to_vec()), Ok(()));
    assert_eq!(pallet.get_book(Origin::Signed(BOB), 1), Ok(()));
    assert_eq!(
        pallet.events()[1],
        Event::BooksRetrieved { book_id: 1, book: None, who: BOB }
    );
}

#[test]
fn numbers_of_one_owner_are_apart() {
    let mut pallet = Pallet::<Test>::new();
    assert_eq!(pallet.create_book(Origin::Signed(ALICE), 0, b"zero".to_vec()), Ok(()));
    assert_eq!(pallet.create_book(Origin::Signed(ALICE), u32::MAX, b"last".to_vec()), Ok(()));
    assert_eq!(pallet.create_book(Origin::Signed(ALICE), 0, b"nought".to_vec()), Ok(()));
    assert_eq!(pallet.books().get(&(ALICE, 0)), Some(record(b"nought")));
    assert_eq!(pallet.books().get(&(ALICE, u32::MAX)), Some(record(b"last")));
    assert_eq!(pallet.books().get(&(ALICE, 1)), None);
}

#[test]
fn miss_is_reported_and_succeeds() {
    let mut pallet = Pallet::<Test>::new();
    assert_eq!(pallet.get_book(Origin::Signed(ALICE), 42), Ok(()));
    assert_eq!(
        pallet.events(),
        &vec![Event::BooksRetrieved { book_id: 42, book: None, who: ALICE }]
    );
    assert_eq!(pallet.books().get(&(ALICE, 42)), None);
}

#[test]
fn get_book_stores_nothing() {
    let mut pallet = Pallet::<Test>::new();
    assert_eq!(pallet.get_book(Origin::Signed(ALICE), 1), Ok(()));
    assert_eq!(pallet.get_book(Origin::Signed(ALICE), 1), Ok(()));
    assert_eq!(pallet.books().get(&(ALICE, 1)), None);
    assert_eq!(pallet.events().len(), 2);
}

#[test]
fn each_call_emits_one_event_in_order() {
    let mut pallet = Pallet::<Test>::new();
    assert_eq!(pallet.create_book(Origin::Signed(ALICE), 1, b"a".to_vec()), Ok(()));
    assert_eq!(pallet.get_book(Origin::Signed(ALICE), 1), Ok(()));
    assert_eq!(pallet.create_book(Origin::Signed(ALICE), 1, b"b".to_vec()), Ok(()));
    assert_eq!(pallet.get_book(Origin::Signed(ALICE), 1), Ok(()));
    assert_eq!(
        pallet.events(),
        &vec![
            Event::BooksStored { book_id: 1, book: record(b"a"), who: ALICE },
            Event::BooksRetrieved { book_id: 1, book: Some(record(b"a")), who: ALICE },
            Event::BooksStored { book_id: 1, book: record(b"b"), who: ALICE },
            Event::BooksRetrieved { book_id: 1, book: Some(record(b"b")), who: ALICE },
        ]
    );
}

#[test]
fn stored_book_does_not_follow_the_callers_buffer() {
    let mut pallet = Pallet::<Test>::new();
    let mut buffer = b"hello".to_vec();
    assert_eq!(pallet.create_book(Origin::Signed(ALICE), 1, buffer.clone()), Ok(()));
    buffer[0] = b'j';
    buffer.push(b'!');
    assert_eq!(pallet.books().get(&(ALICE, 1)), Some(record(b"hello")));
}

#[test]
fn accounts_that_are_not_copied_work_alike() {
    let ann = String::from("ann");
    let ben = String::from("ben");
    let mut pallet = Pallet::<Named>::new();
    assert_eq!(pallet.create_book(Origin::Signed(ann.clone()), 1, b"one".to_vec()), Ok(()));
    assert_eq!(pallet.create_book(Origin::Signed(ben.clone()), 1, b"two".to_vec()), Ok(()));
    assert_eq!(pallet.create_book(Origin::Signed(ann.clone()), 1, b"three".to_vec()), Ok(()));
    assert_eq!(pallet.books().get(&(ann.clone(), 1)), Some(record(b"three")));
    assert_eq!(pallet.books().get(&(ben.clone(), 1)), Some(record(b"two")));
    assert_eq!(pallet.get_book(Origin::Signed(ann.clone()), 1), Ok(()));
    assert_eq!(
        pallet.events()[0],
        Event::BooksStored { book_id: 1, book: record(b"one"), who: ann.clone() }
    );
    assert_eq!(
        pallet.events()[3],
        Event::BooksRetrieved { book_id: 1, book: Some(record(b"three")), who: ann }
    );
}
