//! What holds of the calls, whatever the state and the arguments: stated over
//! the states that the contracts of `create_book` and `get_book` speak of, and
//! proved.

use crate::error::{DispatchError, Error};
use crate::event::EventView;
use crate::origin::{signer, Origin};
use crate::pallet::{lookup, PalletView};
use crate::record::MAX_STRING_LENGTH;
use crate::store::{within_bound, StorageKey};
use vstd::prelude::*;

verus! {

/// One call to the pallet, with its book given by its bytes.
pub enum Call<AccountId> {
    CreateBook { origin: Origin<AccountId>, book_id: u32, book: Seq<u8> },
    GetBook { origin: Origin<AccountId>, book_id: u32 },
}

/// Whether `call` stores a book under `key`: it is a `create_book` that the
/// owner of the key signed, with the number of the key and a book within the
/// bound.
pub open spec fn writes<AccountId>(call: Call<AccountId>, key: StorageKey<AccountId>) -> bool {
    match call {
        Call::CreateBook { origin, book_id, book } => {
            &&& signer(origin) == Some(key.0)
            &&& book_id == key.1
            &&& book.len() <= MAX_STRING_LENGTH
        },
        Call::GetBook { .. } => false,
    }
}

impl<AccountId> PalletView<AccountId> {
    /// The state before any call: no book and no event.
    pub open spec fn empty() -> Self {
        PalletView { books: Map::empty(), events: Seq::empty() }
    }

    /// The result of `call`, and the state it leaves.
    pub open spec fn dispatch(self, call: Call<AccountId>) -> (Result<(), DispatchError>, Self) {
        match call {
            Call::CreateBook { origin, book_id, book } => self.create_book(origin, book_id, book),
            Call::GetBook { origin, book_id } => self.get_book(origin, book_id),
        }
    }

    /// The state that `calls` leave, made one after the other.
    pub open spec fn run(self, calls: Seq<Call<AccountId>>) -> Self
        decreases calls.len(),
    {
        if calls.len() == 0 {
            self
        } else {
            self.run(calls.drop_last()).dispatch(calls.last()).1
        }
    }
}

/// A signed `create_book` succeeds exactly when the book is within the bound.
/// Over the bound it fails with `StorageOverflow`, and neither the books nor
/// the events change.
pub proof fn lemma_bound_enforcement<AccountId>(
    state: PalletView<AccountId>,
    origin: Origin<AccountId>,
    book_id: u32,
    book: Seq<u8>,
)
    requires
        origin is Signed,
    ensures
        state.create_book(origin, book_id, book).0 is Ok <==> book.len() <= MAX_STRING_LENGTH,
        book.len() > MAX_STRING_LENGTH ==> state.create_book(origin, book_id, book) == (
            Err::<(), DispatchError>(DispatchError::Module(Error::StorageOverflow)),
            state,
        ),
{
}

/// A call whose origin is not signed fails with `BadOrigin`, whichever call it
/// is, and neither the books nor the events change.
pub proof fn lemma_authorization<AccountId>(
    state: PalletView<AccountId>,
    origin: Origin<AccountId>,
    book_id: u32,
    book: Seq<u8>,
)
    requires
        !(origin is Signed),
    ensures
        state.create_book(origin, book_id, book) == (
            Err::<(), DispatchError>(DispatchError::BadOrigin),
            state,
        ),
        state.get_book(origin, book_id) == (
            Err::<(), DispatchError>(DispatchError::BadOrigin),
            state,
        ),
{
}

/// A call that fails leaves the books and the events as they were.
pub proof fn lemma_failure_changes_nothing<AccountId>(
    state: PalletView<AccountId>,
    call: Call<AccountId>,
)
    requires
        state.dispatch(call).0 is Err,
    ensures
        state.dispatch(call).1 == state,
{
}

/// Of two `create_book` calls by one signer under one number, the second
/// decides what is stored: a `get_book` after them reports the second book,
/// whatever the first was.
pub proof fn lemma_overwrite<AccountId>(
    state: PalletView<AccountId>,
    who: AccountId,
    book_id: u32,
    first: Seq<u8>,
    second: Seq<u8>,
)
    requires
        second.len() <= MAX_STRING_LENGTH,
    ensures
        ({
            let origin = Origin::Signed(who);
            let written = state.create_book(origin, book_id, first).1.create_book(
                origin,
                book_id,
                second,
            ).1;
            let read = written.get_book(origin, book_id);
            &&& lookup(written.books, (who, book_id)) == Some(second)
            &&& read.0 == Ok::<(), DispatchError>(())
            &&& read.1.events.last() == EventView::BooksRetrieved {
                book_id,
                book: Some(second),
                who,
            }
        }),
{
}

/// A `create_book` by one account changes nothing that a `get_book` by another
/// account reports: its result and its event are what they would have been
/// without the `create_book`.
pub proof fn lemma_isolation<AccountId>(
    state: PalletView<AccountId>,
    writer: AccountId,
    written_id: u32,
    book: Seq<u8>,
    reader: AccountId,
    read_id: u32,
)
    requires
        reader != writer,
    ensures
        ({
            let written = state.create_book(Origin::Signed(writer), written_id, book).1;
            let read = written.get_book(Origin::Signed(reader), read_id);
            let read_before = state.get_book(Origin::Signed(reader), read_id);
            &&& lookup(written.books, (reader, read_id)) == lookup(state.books, (reader, read_id))
            &&& read.0 == read_before.0
            &&& read.1.events.last() == read_before.1.events.last()
        }),
{
}

/// A signed `get_book` on a key that holds nothing succeeds, and reports the
/// absence in its event.
pub proof fn lemma_miss_reported<AccountId>(
    state: PalletView<AccountId>,
    who: AccountId,
    book_id: u32,
)
    requires
        !state.books.contains_key((who, book_id)),
    ensures
        state.get_book(Origin::Signed(who), book_id) == (
            Ok::<(), DispatchError>(()),
            PalletView {
                books: state.books,
                events: state.events.push(EventView::BooksRetrieved { book_id, book: None, who }),
            },
        ),
{
}

/// A key holds nothing for as long as no call has stored a book under it,
/// whatever other calls were made since the empty state.
pub proof fn lemma_never_written_is_absent<AccountId>(
    calls: Seq<Call<AccountId>>,
    key: StorageKey<AccountId>,
)
    requires
        forall|i: int| 0 <= i < calls.len() ==> !writes(#[trigger] calls[i], key),
    ensures
        !PalletView::<AccountId>::empty().run(calls).books.contains_key(key),
    decreases calls.len(),
{
    if calls.len() > 0 {
        lemma_never_written_is_absent(calls.drop_last(), key);
    }
}

/// A `create_book` that succeeds emits exactly one event, a `BooksStored`,
/// and the book in it is the one that the store then holds under the key.
pub proof fn lemma_create_book_event<AccountId>(
    state: PalletView<AccountId>,
    origin: Origin<AccountId>,
    book_id: u32,
    book: Seq<u8>,
)
    requires
        state.create_book(origin, book_id, book).0 is Ok,
    ensures
        ({
            let after = state.create_book(origin, book_id, book).1;
            &&& origin is Signed
            &&& after.events.len() == state.events.len() + 1
            &&& after.events.drop_last() == state.events
            &&& after.events.last() == EventView::BooksStored {
                book_id,
                book,
                who: origin->Signed_0,
            }
            &&& lookup(after.books, (origin->Signed_0, book_id)) == Some(book)
        }),
{
}

/// A signed `get_book` emits exactly one event, a `BooksRetrieved`, with what
/// the store held under the key when the call was made, and stores nothing.
pub proof fn lemma_get_book_event<AccountId>(
    state: PalletView<AccountId>,
    who: AccountId,
    book_id: u32,
)
    ensures
        ({
            let after = state.get_book(Origin::Signed(who), book_id).1;
            &&& after.books == state.books
            &&& after.events.len() == state.events.len() + 1
            &&& after.events.drop_last() == state.events
            &&& after.events.last() == EventView::BooksRetrieved {
                book_id,
                book: lookup(state.books, (who, book_id)),
                who,
            }
        }),
{
}

/// No call stores a book over the bound: where every book is within the bound
/// before a call, every book is within it after.
pub proof fn lemma_bound_preserved<AccountId>(state: PalletView<AccountId>, call: Call<AccountId>)
    requires
        within_bound(state.books),
    ensures
        within_bound(state.dispatch(call).1.books),
{
}

/// Whatever calls were made since the empty state, every stored book is within
/// the bound.
pub proof fn lemma_bound_always<AccountId>(calls: Seq<Call<AccountId>>)
    ensures
        within_bound(PalletView::<AccountId>::empty().run(calls).books),
    decreases calls.len(),
{
    if calls.len() > 0 {
        let earlier = PalletView::<AccountId>::empty().run(calls.drop_last());
        lemma_bound_always(calls.drop_last());
        lemma_bound_preserved(earlier, calls.last());
    }
}

} // verus!
