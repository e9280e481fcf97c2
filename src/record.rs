//! The rules for one account's record, apart from any storage: each takes the
//! record currently stored (if any) and the chain height, and gives the record
//! to store and announce, or the error that refuses the call.
use vstd::prelude::*;

use crate::types::{Error, UserState};

verus! {

/// What an add gives for the stored record `existing`.
pub open spec fn add_record_spec(existing: Option<UserState>, now: u64, x: u64, y: u64) -> Result<UserState, Error> {
    match existing {
        Some(_) => Err(Error::UserExists),
        None => Ok(UserState { last_updated_block: now, x, y }),
    }
}

/// What a removal gives for the stored record `existing`: the snapshot that is
/// announced, stamped with the height of the removal.
pub open spec fn remove_record_spec(existing: Option<UserState>, now: u64) -> Result<UserState, Error> {
    match existing {
        Some(s) => Ok(UserState { last_updated_block: now, x: s.x, y: s.y }),
        None => Err(Error::UserNotFound),
    }
}

/// What an update gives for the stored record `existing`.
pub open spec fn update_record_spec(existing: Option<UserState>, now: u64, x: u64, y: u64) -> Result<UserState, Error> {
    match existing {
        Some(_) => Ok(UserState { last_updated_block: now, x, y }),
        None => Err(Error::UserNotFound),
    }
}

/// The record to insert for a new account, or `UserExists` if one is stored.
pub fn add_record(existing: Option<UserState>, now: u64, x: u64, y: u64) -> (r: Result<UserState, Error>)
    ensures
        r == add_record_spec(existing, now, x, y),
{
    if existing.is_some() {
        return Err(Error::UserExists);
    }
    Ok(UserState::new(now, x, y))
}

/// The snapshot to announce when the stored record is removed, or
/// `UserNotFound` if none is stored.
pub fn remove_record(existing: Option<UserState>, now: u64) -> (r: Result<UserState, Error>)
    ensures
        r == remove_record_spec(existing, now),
{
    match existing {
        Some(s) => {
            let mut user_state = s;
            user_state.last_updated_block = now;
            Ok(user_state)
        },
        None => Err(Error::UserNotFound),
    }
}

/// The stored record with new coordinates and height, or `UserNotFound` if
/// none is stored.
pub fn update_record(existing: Option<UserState>, now: u64, x: u64, y: u64) -> (r: Result<UserState, Error>)
    ensures
        r == update_record_spec(existing, now, x, y),
{
    match existing {
        Some(s) => {
            let mut user_state = s;
            user_state.last_updated_block = now;
            user_state.x = x;
            user_state.y = y;
            Ok(user_state)
        },
        None => Err(Error::UserNotFound),
    }
}

} // verus!
