use vstd::prelude::*;

verus! {

/// An account identity, as resolved by the authentication gate.
pub type AccountId = u64;

/// A chain height.
pub type BlockNumber = u64;

/// The record kept for one account.
#[derive(Debug, Clone, Copy, PartialEq, Eq, Structural)]
pub struct UserState {
    /// Block height of the last add or update of the record.
    pub last_updated_block: u64,
    /// The coordinates set by the last add or update.
    pub x: u64,
    pub y: u64,
}

impl UserState {
    pub fn new(last_updated_block: u64, x: u64, y: u64) -> (r: Self)
        ensures
            r == (UserState { last_updated_block, x, y }),
    {
        UserState { last_updated_block, x, y }
    }
}

/// Where a call comes from.
#[derive(Debug, Clone, Copy, PartialEq, Eq, Structural)]
pub enum Origin {
    /// The privileged root origin.
    Root,
    /// A call signed by the given account.
    Signed(AccountId),
    /// An unsigned call.
    Unsigned,
}

/// The notifications emitted by the store.
#[derive(Debug, Clone, Copy, PartialEq, Eq, Structural)]
pub enum Event {
    /// User added.
    UserAdded { who: AccountId, user_state: UserState },
    /// User removed.
    UserRemoved { who: AccountId, user_state: UserState },
    /// User info changed.
    UserInfoChanged { who: AccountId, user_state: UserState },
}

/// The failures of the store's own rules.
#[derive(Debug, Clone, Copy, PartialEq, Eq, Structural)]
pub enum Error {
    /// User already exists.
    UserExists,
    /// User not found.
    UserNotFound,
}

/// Why a call was rejected.
#[derive(Debug, Clone, Copy, PartialEq, Eq, Structural)]
pub enum DispatchError {
    /// The caller is not a signed account.
    BadOrigin,
    /// One of the store's own rules refused the call.
    Module(Error),
}

pub type DispatchResult = Result<(), DispatchError>;

/// The account that signed `origin`, if it is a signed origin.
pub open spec fn signer_of(origin: Origin) -> Result<AccountId, DispatchError> {
    match origin {
        Origin::Signed(who) => Ok(who),
        _ => Err(DispatchError::BadOrigin),
    }
}

/// Resolves the caller's identity; fails with `BadOrigin` unless the call is signed.
pub fn ensure_signed(origin: Origin) -> (r: Result<AccountId, DispatchError>)
    ensures
        r == signer_of(origin),
{
    match origin {
        Origin::Signed(who) => Ok(who),
        _ => Err(DispatchError::BadOrigin),
    }
}

} // verus!
