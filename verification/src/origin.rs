//! Where a call comes from.

use vstd::prelude::*;
use crate::errors::BadOrigin;
use crate::types::AccountId;

verus! {

/// The origin of a call.
#[derive(Clone, Copy, Debug, PartialEq, Eq, Structural)]
pub enum Origin {
    /// The system itself.
    Root,
    /// An account that signed the call.
    Signed(AccountId),
    /// Nobody: an unsigned call.
    Unsigned,
}

impl Origin {
    /// The account that signed the call, if one did.
    pub open spec fn signer(self) -> Option<AccountId> {
        match self {
            Origin::Signed(who) => Some(who),
            _ => None,
        }
    }

    /// The origin of a call signed by `who`.
    pub fn signed(who: AccountId) -> (r: Self)
        ensures
            r == Origin::Signed(who),
    {
        Origin::Signed(who)
    }

    /// The origin of an unsigned call.
    pub fn none() -> (r: Self)
        ensures
            r == Origin::Unsigned,
    {
        Origin::Unsigned
    }

    /// The origin of a call by the system.
    pub fn root() -> (r: Self)
        ensures
            r == Origin::Root,
    {
        Origin::Root
    }
}

/// The account that signed the call, or `BadOrigin` where none did.
pub fn ensure_signed(origin: Origin) -> (r: Result<AccountId, BadOrigin>)
    ensures
        r == (match origin.signer() {
            Some(who) => Ok::<AccountId, BadOrigin>(who),
            None => Err(BadOrigin),
        }),
{
    match origin {
        Origin::Signed(who) => Ok(who),
        _ => Err(BadOrigin),
    }
}

} // verus!
