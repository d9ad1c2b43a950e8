//! The origin of a call, and the one rule on it: a call needs a signer.

use vstd::prelude::*;

verus! {

/// Where a call comes from.
#[derive(Debug, PartialEq, Eq)]
pub enum Origin<AccountId> {
    /// Signed by the account it carries.
    Signed(AccountId),
    /// Sent by somebody, without a signature.
    Unsigned,
    /// Sent by the system itself.
    Root,
    /// Sent with no origin at all.
    Absent,
}

/// A call came from an origin that may not make it.
#[derive(Clone, Copy, Debug, PartialEq, Eq)]
pub struct BadOrigin;

/// The account that signed `origin`, if one did.
pub open spec fn signer<AccountId>(origin: Origin<AccountId>) -> Option<AccountId> {
    match origin {
        Origin::Signed(who) => Some(who),
        _ => None,
    }
}

/// The account that signed `origin`. Any origin that is not signed is refused.
pub fn ensure_signed<AccountId>(origin: Origin<AccountId>) -> (r: Result<AccountId, BadOrigin>)
    ensures
        match r {
            Ok(who) => signer(origin) == Some(who),
            Err(_) => signer(origin) is None,
        },
{
    match origin {
        Origin::Signed(who) => Ok(who),
        _ => Err(BadOrigin),
    }
}

} // verus!
