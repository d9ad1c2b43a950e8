//! The two calls, on a state that holds the books and the events emitted so
//! far.

use crate::error::{DispatchError, Error};
use crate::event::{Event, EventView};
use crate::origin::{ensure_signed, signer, Origin};
use crate::record::MAX_STRING_LENGTH;
use crate::store::{BookStore, StorageKey};
use crate::weights::WeightInfo;
use vstd::laws_eq::obeys_concrete_eq;
use vstd::prelude::*;

verus! {

/// What the host supplies: the type that names an account, and the costs of
/// the calls.
pub trait Config {
    type AccountId: Clone + PartialEq;

    type WeightInfo: WeightInfo;
}

/// Whether `==` and `clone` of an account type go by the value: two accounts
/// compare equal exactly when they are the same value, and a clone is the same
/// value as its source.
pub open spec fn account_by_value<AccountId: Clone + PartialEq>() -> bool {
    &&& obeys_concrete_eq::<AccountId>()
    &&& forall|a: AccountId, b: AccountId| #[trigger] cloned(a, b) ==> a == b
}

/// The book store with its two calls, and the log of the events they emitted.
pub struct Pallet<T: Config> {
    books: BookStore<T::AccountId>,
    events: Vec<Event<T::AccountId>>,
}

/// The state of a [`Pallet`]: the bytes of each stored book, and the events
/// emitted so far, oldest first.
#[verifier::reject_recursive_types(AccountId)]
pub struct PalletView<AccountId> {
    pub books: Map<StorageKey<AccountId>, Seq<u8>>,
    pub events: Seq<EventView<AccountId>>,
}

/// A log of events, each with its books given by their bytes.
pub open spec fn events_view<AccountId>(events: Seq<Event<AccountId>>) -> Seq<
    EventView<AccountId>,
> {
    events.map_values(|e: Event<AccountId>| e@)
}

/// What `books` holds under `key`, if anything.
pub open spec fn lookup<AccountId>(
    books: Map<StorageKey<AccountId>, Seq<u8>>,
    key: StorageKey<AccountId>,
) -> Option<Seq<u8>> {
    if books.contains_key(key) {
        Some(books[key])
    } else {
        None
    }
}

impl<AccountId> PalletView<AccountId> {
    /// What `create_book` does: its result, and the state it leaves.
    ///
    /// With a signed origin and a book within the bound, the book is stored
    /// under the signer and `book_id`, in place of what was there, and one
    /// `BooksStored` is emitted. Anything else fails and leaves the state as
    /// it was: `BadOrigin` without a signer, else `StorageOverflow`.
    pub open spec fn create_book(self, origin: Origin<AccountId>, book_id: u32, book: Seq<u8>) -> (
        Result<(), DispatchError>,
        Self,
    ) {
        match signer(origin) {
            Some(who) => if book.len() <= MAX_STRING_LENGTH {
                (
                    Ok(()),
                    PalletView {
                        books: self.books.insert((who, book_id), book),
                        events: self.events.push(EventView::BooksStored { book_id, book, who }),
                    },
                )
            } else {
                (Err(DispatchError::Module(Error::StorageOverflow)), self)
            },
            None => (Err(DispatchError::BadOrigin), self),
        }
    }

    /// What `get_book` does: its result, and the state it leaves.
    ///
    /// With a signed origin, one `BooksRetrieved` is emitted with what the
    /// store holds under the signer and `book_id`, which may be nothing.
    /// Without a signer the call fails with `BadOrigin` and emits nothing. The
    /// books stay as they were either way.
    pub open spec fn get_book(self, origin: Origin<AccountId>, book_id: u32) -> (
        Result<(), DispatchError>,
        Self,
    ) {
        match signer(origin) {
            Some(who) => {
                let book = lookup(self.books, (who, book_id));
                (
                    Ok(()),
                    PalletView {
                        books: self.books,
                        events: self.events.push(EventView::BooksRetrieved { book_id, book, who }),
                    },
                )
            },
            None => (Err(DispatchError::BadOrigin), self),
        }
    }
}

impl<T: Config> View for Pallet<T> {
    type V = PalletView<T::AccountId>;

    closed spec fn view(&self) -> PalletView<T::AccountId> {
        PalletView { books: self.books@, events: events_view(self.events@) }
    }
}

impl<T: Config> Pallet<T> {
    /// A pallet with no book stored and no event emitted.
    pub fn new() -> (pallet: Self)
        ensures
            pallet@.books == Map::<StorageKey<T::AccountId>, Seq<u8>>::empty(),
            pallet@.events == Seq::<EventView<T::AccountId>>::empty(),
    {
        let pallet = Pallet { books: BookStore::new(), events: Vec::new() };
        pallet
    }

    fn deposit_event(&mut self, event: Event<T::AccountId>)
        ensures
            final(self)@.books == old(self)@.books,
            final(self)@.events == old(self)@.events.push(event@),
    {
        self.events.push(event);
    }

    /// Stores `book` under the signer of `origin` and `book_id`, in place of
    /// what was there, and then emits `BooksStored`.
    ///
    /// An origin that is not signed fails with `BadOrigin`, a book over the
    /// bound with `StorageOverflow`. A call that fails stores nothing and
    /// emits nothing.
    pub fn create_book(&mut self, origin: Origin<T::AccountId>, book_id: u32, book: Vec<u8>) -> (r:
        Result<(), DispatchError>)
        requires
            account_by_value::<T::AccountId>(),
        ensures
            r == old(self)@.create_book(origin, book_id, book@).0,
            final(self)@ == old(self)@.create_book(origin, book_id, book@).1,
    {
        let who = match ensure_signed(origin) {
            Ok(who) => who,
            Err(_) => {
                return Err(DispatchError::BadOrigin);
            },
        };
        let owner = who.clone();
        assert(cloned(who, owner));
        let stored = match self.books.put((owner, book_id), book) {
            Ok(stored) => stored,
            Err(_) => {
                return Err(DispatchError::Module(Error::StorageOverflow));
            },
        };
        self.deposit_event(Event::BooksStored { book_id, book: stored, who });
        Ok(())
    }

    /// Emits `BooksRetrieved` with the book stored under the signer of
    /// `origin` and `book_id`, or with nothing where the key holds none: that
    /// is no failure.
    ///
    /// An origin that is not signed fails with `BadOrigin` and emits nothing.
    /// No book changes.
    pub fn get_book(&mut self, origin: Origin<T::AccountId>, book_id: u32) -> (r: Result<
        (),
        DispatchError,
    >)
        requires
            obeys_concrete_eq::<T::AccountId>(),
        ensures
            r == old(self)@.get_book(origin, book_id).0,
            final(self)@ == old(self)@.get_book(origin, book_id).1,
    {
        let who = match ensure_signed(origin) {
            Ok(who) => who,
            Err(_) => {
                return Err(DispatchError::BadOrigin);
            },
        };
        let key = (who, book_id);
        let book = self.books.get(&key);
        self.deposit_event(Event::BooksRetrieved { book_id, book, who: key.0 });
        Ok(())
    }

    /// The stored books.
    pub fn books(&self) -> (books: &BookStore<T::AccountId>)
        ensures
            books@ == self@.books,
    {
        &self.books
    }

    /// The events emitted so far, oldest first.
    pub fn events(&self) -> (events: &Vec<Event<T::AccountId>>)
        ensures
            events_view(events@) == self@.events,
    {
        &self.events
    }
}

} // verus!
