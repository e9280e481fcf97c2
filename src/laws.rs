//! Laws of the store, stated over the transitions that its operations follow.
use vstd::prelude::*;

use crate::coord_store::{
    CoordEntry, CoordStoreView, coord_add_spec, coord_remove_spec, coord_update_spec,
};
use crate::pallet::{
    StoreView, add_user_spec, remove_user_spec, set_block_number_spec, update_user_info_spec,
};
use crate::types::{AccountId, DispatchError, Error, Origin, UserState};

verus! {

/// After a removal by `who`, whether it succeeded or not, `who` has no record.
pub proof fn lemma_remove_then_absent(s: StoreView, who: AccountId)
    ensures
        remove_user_spec(s, Origin::Signed(who)).0.record_of(who) == None::<UserState>,
{
}

/// An add by an account without a record succeeds and leaves it with the
/// given coordinates, stamped with the current height.
pub proof fn lemma_add_then_present(s: StoreView, who: AccountId, x: u64, y: u64)
    requires
        s.record_of(who) == None::<UserState>,
    ensures
        add_user_spec(s, Origin::Signed(who), x, y).1 == Ok::<(), DispatchError>(()),
        add_user_spec(s, Origin::Signed(who), x, y).0.record_of(who) == Some(
            UserState { last_updated_block: s.block_number, x, y },
        ),
{
}

/// A second add in a row by the same account fails with `UserExists` and
/// changes nothing, so the record of the first stays as it was.
pub proof fn lemma_add_twice_fails(s: StoreView, who: AccountId, x1: u64, y1: u64, x2: u64, y2: u64)
    ensures
        ({
            let s1 = add_user_spec(s, Origin::Signed(who), x1, y1).0;
            add_user_spec(s1, Origin::Signed(who), x2, y2) == (
                s1,
                Err::<(), DispatchError>(DispatchError::Module(Error::UserExists)),
            )
        }),
{
}

/// Removing or updating an account without a record fails with
/// `UserNotFound` and changes nothing: no record, no event.
pub proof fn lemma_missing_record_not_found(s: StoreView, who: AccountId, x: u64, y: u64)
    requires
        s.record_of(who) == None::<UserState>,
    ensures
        remove_user_spec(s, Origin::Signed(who)) == (
            s,
            Err::<(), DispatchError>(DispatchError::Module(Error::UserNotFound)),
        ),
        update_user_info_spec(s, Origin::Signed(who), x, y) == (
            s,
            Err::<(), DispatchError>(DispatchError::Module(Error::UserNotFound)),
        ),
{
}

/// An update stamps the record with the current height, which is never below
/// its previous stamp.
pub proof fn lemma_update_stamps_height(s: StoreView, who: AccountId, x: u64, y: u64)
    requires
        s.wf(),
        s.users.contains_key(who),
    ensures
        ({
            let s1 = update_user_info_spec(s, Origin::Signed(who), x, y).0;
            &&& s1.users[who].last_updated_block == s.block_number
            &&& s.users[who].last_updated_block <= s1.users[who].last_updated_block
        }),
{
}

/// Two updates with the chain moving forward in between: the second stamp is
/// the new height and not below the first.
pub proof fn lemma_successive_updates_monotone(
    s: StoreView,
    who: AccountId,
    x1: u64,
    y1: u64,
    n: u64,
    x2: u64,
    y2: u64,
)
    requires
        s.wf(),
        s.users.contains_key(who),
        s.block_number <= n,
    ensures
        ({
            let s1 = update_user_info_spec(s, Origin::Signed(who), x1, y1).0;
            let s3 = update_user_info_spec(set_block_number_spec(s1, n), Origin::Signed(who), x2, y2).0;
            &&& s3.users[who].last_updated_block == n
            &&& s1.users[who].last_updated_block <= s3.users[who].last_updated_block
        }),
{
}

/// An account's key can be used again once its record is removed.
pub proof fn lemma_add_after_remove(s: StoreView, who: AccountId, x: u64, y: u64)
    ensures
        ({
            let s1 = remove_user_spec(s, Origin::Signed(who)).0;
            add_user_spec(s1, Origin::Signed(who), x, y).1 == Ok::<(), DispatchError>(())
        }),
{
}

/// In the coordinate store, a removal by `who` leaves `who` without an entry,
/// and an add by an account without one leaves it present with no
/// coordinates yet.
pub proof fn lemma_coord_remove_absent_add_present(s: CoordStoreView, who: AccountId)
    ensures
        coord_remove_spec(s, Origin::Signed(who)).0.entry_of(who) == None::<CoordEntry>,
        s.entry_of(who) == None::<CoordEntry> ==> coord_add_spec(s, Origin::Signed(who)).0.entry_of(
            who,
        ) == Some::<CoordEntry>((s.block_number, None)),
{
}

/// In the coordinate store, a second add in a row by the same account fails
/// with `UserExists` and changes nothing.
pub proof fn lemma_coord_add_twice_fails(s: CoordStoreView, who: AccountId)
    ensures
        ({
            let s1 = coord_add_spec(s, Origin::Signed(who)).0;
            coord_add_spec(s1, Origin::Signed(who)) == (
                s1,
                Err::<(), DispatchError>(DispatchError::Module(Error::UserExists)),
            )
        }),
{
}

/// In the coordinate store, removing or updating an account without an entry
/// fails with `UserNotFound` and changes nothing.
pub proof fn lemma_coord_missing_entry_not_found(s: CoordStoreView, who: AccountId, x: i128, y: i128)
    requires
        s.entry_of(who) == None::<CoordEntry>,
    ensures
        coord_remove_spec(s, Origin::Signed(who)) == (
            s,
            Err::<(), DispatchError>(DispatchError::Module(Error::UserNotFound)),
        ),
        coord_update_spec(s, Origin::Signed(who), x, y) == (
            s,
            Err::<(), DispatchError>(DispatchError::Module(Error::UserNotFound)),
        ),
{
}

/// In the coordinate store, an update sets the coordinates and stamps the
/// entry with the current height, never below its previous stamp.
pub proof fn lemma_coord_update_stamps_height(s: CoordStoreView, who: AccountId, x: i128, y: i128)
    requires
        s.wf(),
        s.users.contains_key(who),
    ensures
        ({
            let s1 = coord_update_spec(s, Origin::Signed(who), x, y).0;
            &&& s1.users[who] == (s.block_number, Some((x, y)))
            &&& s.users[who].0 <= s1.users[who].0
        }),
{
}

} // verus!
