//! The record store: a map from an owner and a number to a book.

use crate::record::{bounded_from, clone_record, record_bytes, BookRecord, MAX_STRING_LENGTH};
use vstd::laws_eq::obeys_concrete_eq;
use vstd::prelude::*;

verus! {

/// A byte string was longer than a book may be.
#[derive(Clone, Copy, Debug, PartialEq, Eq)]
pub struct BoundError;

/// The key of a book: its owner, and the number the owner gave it.
pub type StorageKey<AccountId> = (AccountId, u32);

struct Entry<AccountId> {
    owner: AccountId,
    book_id: u32,
    book: BookRecord,
}

/// The books of all owners, each under its key.
///
/// A key that was never written holds nothing, which is not the same as
/// holding an empty book. A key that was written holds the bytes of the last
/// write to it. No key holds a book over the bound.
pub struct BookStore<AccountId> {
    entries: Vec<Entry<AccountId>>,
}

spec fn key_of<AccountId>(e: Entry<AccountId>) -> StorageKey<AccountId> {
    (e.owner, e.book_id)
}

spec fn holds<AccountId>(s: Seq<Entry<AccountId>>, k: StorageKey<AccountId>, i: int) -> bool {
    0 <= i < s.len() && key_of(s[i]) == k
}

spec fn distinct_keys<AccountId>(s: Seq<Entry<AccountId>>) -> bool {
    forall|i: int, j: int|
        0 <= i < j < s.len() ==> key_of(#[trigger] s[i]) != key_of(#[trigger] s[j])
}

spec fn bounded_books<AccountId>(s: Seq<Entry<AccountId>>) -> bool {
    forall|i: int|
        0 <= i < s.len() ==> record_bytes((#[trigger] s[i]).book).len() <= MAX_STRING_LENGTH
}

spec fn as_map<AccountId>(s: Seq<Entry<AccountId>>) -> Map<StorageKey<AccountId>, Seq<u8>> {
    Map::new(
        |k: StorageKey<AccountId>| exists|i: int| holds(s, k, i),
        |k: StorageKey<AccountId>| record_bytes(s[choose|i: int| holds(s, k, i)].book),
    )
}

/// Whether every book in `books` is within the bound.
pub open spec fn within_bound<AccountId>(books: Map<StorageKey<AccountId>, Seq<u8>>) -> bool {
    forall|k: StorageKey<AccountId>| #[trigger]
        books.contains_key(k) ==> books[k].len() <= MAX_STRING_LENGTH
}

proof fn lemma_lookup<AccountId>(s: Seq<Entry<AccountId>>, i: int)
    requires
        distinct_keys(s),
        0 <= i < s.len(),
    ensures
        as_map(s).contains_key(key_of(s[i])),
        as_map(s)[key_of(s[i])] == record_bytes(s[i].book),
{
    assert(holds(s, key_of(s[i]), i));
}

// The two ways in which `put` changes the entries. Each keeps the keys
// distinct and amounts to one `insert` on the map.
proof fn lemma_replace<AccountId>(s: Seq<Entry<AccountId>>, i: int, e: Entry<AccountId>)
    requires
        distinct_keys(s),
        0 <= i < s.len(),
        key_of(e) == key_of(s[i]),
    ensures
        distinct_keys(s.update(i, e)),
        as_map(s.update(i, e)) == as_map(s).insert(key_of(e), record_bytes(e.book)),
{
    let t = s.update(i, e);
    let want = as_map(s).insert(key_of(e), record_bytes(e.book));
    assert forall|a: int| 0 <= a < s.len() implies key_of(#[trigger] t[a]) == key_of(s[a]) by {}
    assert forall|k: StorageKey<AccountId>|
        as_map(t).contains_key(k) <==> want.contains_key(k) by {
        if as_map(t).contains_key(k) {
            let a = choose|a: int| holds(t, k, a);
            assert(holds(s, k, a));
        }
        if want.contains_key(k) {
            if k == key_of(e) {
                assert(holds(t, k, i));
            } else {
                let a = choose|a: int| holds(s, k, a);
                assert(holds(t, k, a));
            }
        }
    }
    assert forall|k: StorageKey<AccountId>| as_map(t).contains_key(k) implies as_map(t)[k]
        == want[k] by {
        let a = choose|a: int| holds(t, k, a);
        lemma_lookup(t, a);
        if a != i {
            lemma_lookup(s, a);
        }
    }
}

proof fn lemma_append<AccountId>(s: Seq<Entry<AccountId>>, e: Entry<AccountId>)
    requires
        distinct_keys(s),
        forall|i: int| 0 <= i < s.len() ==> key_of(#[trigger] s[i]) != key_of(e),
    ensures
        distinct_keys(s.push(e)),
        as_map(s.push(e)) == as_map(s).insert(key_of(e), record_bytes(e.book)),
{
    let t = s.push(e);
    let want = as_map(s).insert(key_of(e), record_bytes(e.book));
    assert forall|a: int| 0 <= a < s.len() implies #[trigger] t[a] == s[a] by {}
    assert forall|k: StorageKey<AccountId>|
        as_map(t).contains_key(k) <==> want.contains_key(k) by {
        if as_map(t).contains_key(k) {
            let a = choose|a: int| holds(t, k, a);
            if a < s.len() {
                assert(holds(s, k, a));
            }
        }
        if want.contains_key(k) {
            if k == key_of(e) {
                assert(holds(t, k, s.len() as int));
            } else {
                let a = choose|a: int| holds(s, k, a);
                assert(holds(t, k, a));
            }
        }
    }
    assert forall|k: StorageKey<AccountId>| as_map(t).contains_key(k) implies as_map(t)[k]
        == want[k] by {
        let a = choose|a: int| holds(t, k, a);
        lemma_lookup(t, a);
        if a < s.len() {
            lemma_lookup(s, a);
        }
    }
}

impl<AccountId> View for BookStore<AccountId> {
    type V = Map<StorageKey<AccountId>, Seq<u8>>;

    /// For each key that holds a book, the bytes of that book.
    closed spec fn view(&self) -> Map<StorageKey<AccountId>, Seq<u8>> {
        as_map(self.entries@)
    }
}

impl<AccountId> BookStore<AccountId> {
    #[verifier::type_invariant]
    spec fn inv(self) -> bool {
        distinct_keys(self.entries@) && bounded_books(self.entries@)
    }

    /// A store that holds no book.
    pub fn new() -> (store: Self)
        ensures
            store@ == Map::<StorageKey<AccountId>, Seq<u8>>::empty(),
    {
        let store = BookStore { entries: Vec::new() };
        assert(store@ =~= Map::<StorageKey<AccountId>, Seq<u8>>::empty());
        store
    }

    /// Where the entry of the key is, if the key has one.
    fn position(&self, owner: &AccountId, book_id: u32) -> (r: Option<usize>) where
        AccountId: PartialEq,

        requires
            obeys_concrete_eq::<AccountId>(),
        ensures
            match r {
                Some(i) => holds(self.entries@, (*owner, book_id), i as int),
                None => forall|i: int|
                    0 <= i < self.entries@.len() ==> key_of(#[trigger] self.entries@[i]) != (
                        *owner,
                        book_id,
                    ),
            },
    {
        let mut i: usize = 0;
        while i < self.entries.len()
            invariant
                i <= self.entries@.len(),
                obeys_concrete_eq::<AccountId>(),
                forall|j: int|
                    0 <= j < i ==> key_of(#[trigger] self.entries@[j]) != (*owner, book_id),
            decreases self.entries@.len() - i,
        {
            proof {
                reveal(obeys_concrete_eq);
            }
            let entry = &self.entries[i];
            if entry.book_id == book_id && entry.owner == *owner {
                return Some(i);
            }
            i += 1;
        }
        None
    }

    /// Makes a book of `data` and stores it under `key`, in place of whatever
    /// the key held. Returns a copy of the stored book.
    ///
    /// A `data` of more than [`MAX_STRING_LENGTH`] bytes is refused, and the
    /// store stays as it was.
    pub fn put(&mut self, key: StorageKey<AccountId>, data: Vec<u8>) -> (r: Result<
        BookRecord,
        BoundError,
    >) where AccountId: PartialEq
        requires
            obeys_concrete_eq::<AccountId>(),
        ensures
            match r {
                Ok(book) => {
                    &&& data@.len() <= MAX_STRING_LENGTH
                    &&& record_bytes(book) == data@
                    &&& final(self)@ == old(self)@.insert(key, data@)
                },
                Err(_) => data@.len() > MAX_STRING_LENGTH && final(self)@ == old(self)@,
            },
            within_bound(final(self)@),
    {
        proof {
            use_type_invariant(&*self);
        }
        let book = match bounded_from(data) {
            Ok(book) => book,
            Err(_) => {
                return Err(BoundError);
            },
        };
        let copy = clone_record(&book);
        let (owner, book_id) = key;
        let found = self.position(&owner, book_id);
        let entry = Entry { owner, book_id, book };
        // `push` may unwind, so the entries leave the store while they change.
        let mut entries: Vec<Entry<AccountId>> = Vec::new();
        core::mem::swap(&mut self.entries, &mut entries);
        match found {
            Some(i) => {
                proof {
                    lemma_replace(entries@, i as int, entry);
                }
                entries.set(i, entry);
            },
            None => {
                proof {
                    lemma_append(entries@, entry);
                }
                entries.push(entry);
            },
        }
        core::mem::swap(&mut self.entries, &mut entries);
        Ok(copy)
    }

    /// A copy of the book stored under `key`, if the key holds one.
    pub fn get(&self, key: &StorageKey<AccountId>) -> (r: Option<BookRecord>) where
        AccountId: PartialEq,

        requires
            obeys_concrete_eq::<AccountId>(),
        ensures
            match r {
                Some(book) => self@.contains_key(*key) && record_bytes(book) == self@[*key],
                None => !self@.contains_key(*key),
            },
            within_bound(self@),
    {
        proof {
            use_type_invariant(self);
        }
        match self.position(&key.0, key.1) {
            Some(i) => {
                proof {
                    lemma_lookup(self.entries@, i as int);
                }
                Some(clone_record(&self.entries[i].book))
            },
            None => None,
        }
    }
}

} // verus!
