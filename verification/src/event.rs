//! The events that the calls emit.

use crate::record::{record_bytes, BookRecord};
use vstd::prelude::*;

verus! {

/// What a call reports of its outcome.
#[derive(Debug, PartialEq, Eq)]
#[allow(inconsistent_fields)]
pub enum Event<AccountId> {
    /// `who` stored `book` under the number `book_id`.
    BooksStored { book_id: u32, book: BookRecord, who: AccountId },
    /// `who` looked up the number `book_id` and found `book`, or nothing.
    BooksRetrieved { book_id: u32, book: Option<BookRecord>, who: AccountId },
}

/// An event, with each book given by its bytes.
#[allow(inconsistent_fields)]
pub enum EventView<AccountId> {
    BooksStored { book_id: u32, book: Seq<u8>, who: AccountId },
    BooksRetrieved { book_id: u32, book: Option<Seq<u8>>, who: AccountId },
}

impl<AccountId> View for Event<AccountId> {
    type V = EventView<AccountId>;

    open spec fn view(&self) -> EventView<AccountId> {
        match *self {
            Event::BooksStored { book_id, book, who } => EventView::BooksStored {
                book_id,
                book: record_bytes(book),
                who,
            },
            Event::BooksRetrieved { book_id, book, who } => EventView::BooksRetrieved {
                book_id,
                book: match book {
                    Some(found) => Some(record_bytes(found)),
                    None => None,
                },
                who,
            },
        }
    }
}

} // verus!
