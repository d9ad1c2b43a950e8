//! A store of books: byte strings of bounded length, each kept under the
//! account that stored it and a number that the account chose. Two calls reach
//! it, `create_book` and `get_book`; both ask for a signed origin, and both
//! report their outcome in an event.

pub mod error;
pub mod event;
pub mod laws;
pub mod origin;
pub mod pallet;
pub mod record;
pub mod store;
pub mod weights;

pub use error::{DispatchError, Error};
pub use event::{Event, EventView};
pub use origin::{ensure_signed, BadOrigin, Origin};
pub use pallet::{Config, Pallet, PalletView};
pub use record::{BookRecord, MaxStringLength, MAX_STRING_LENGTH};
pub use store::{BookStore, BoundError, StorageKey};
pub use weights::{
    call_weight, DbWeight, RuntimeDbWeight, SubstrateWeight, Weight, WeightInfo, BASE_REF_TIME,
};
