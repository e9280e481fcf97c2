//! The store's second shape: each account maps to the height of its last
//! change and optional signed coordinates, absent until the first update. A
//! removal deletes the entry without stamping it again.
use vstd::prelude::*;
use vstd::hash_map::HashMapWithView;

use crate::types::{
    AccountId, BlockNumber, DispatchError, DispatchResult, Error, Origin, ensure_signed, signer_of,
};

verus! {

broadcast use vstd::std_specs::hash::group_hash_axioms;

/// A point, as a pair of signed coordinates.
pub type Coordinates = (i128, i128);

/// The entry kept for one account: height of its last change, and its
/// coordinates once set.
pub type CoordEntry = (BlockNumber, Option<Coordinates>);

/// The notifications emitted by a `CoordStore`.
#[derive(Debug, Clone, Copy, PartialEq, Eq, Structural)]
pub enum CoordEvent {
    /// User added.
    UserAdded { who: AccountId },
    /// User removed.
    UserRemoved { who: AccountId },
    /// User coordinates changed.
    UserInfoChanged { who: AccountId, x: i128, y: i128 },
}

/// The abstract state of a `CoordStore`.
pub ghost struct CoordStoreView {
    pub users: Map<AccountId, CoordEntry>,
    pub events: Seq<CoordEvent>,
    pub block_number: BlockNumber,
}

impl CoordStoreView {
    /// No entry was stamped later than the current height.
    pub open spec fn wf(self) -> bool {
        forall|who: AccountId| #[trigger] self.users.contains_key(who)
            ==> self.users[who].0 <= self.block_number
    }

    /// The entry stored for `who`, if any.
    pub open spec fn entry_of(self, who: AccountId) -> Option<CoordEntry> {
        if self.users.contains_key(who) {
            Some(self.users[who])
        } else {
            None
        }
    }
}

/// The outcome of an add: a new entry without coordinates.
pub open spec fn coord_add_spec(s: CoordStoreView, origin: Origin) -> (CoordStoreView, DispatchResult) {
    match signer_of(origin) {
        Err(e) => (s, Err(e)),
        Ok(who) => if s.users.contains_key(who) {
            (s, Err(DispatchError::Module(Error::UserExists)))
        } else {
            (
                CoordStoreView {
                    users: s.users.insert(who, (s.block_number, None)),
                    events: s.events.push(CoordEvent::UserAdded { who }),
                    block_number: s.block_number,
                },
                Ok(()),
            )
        },
    }
}

/// The outcome of a removal: the entry is deleted as it stands.
pub open spec fn coord_remove_spec(s: CoordStoreView, origin: Origin) -> (CoordStoreView, DispatchResult) {
    match signer_of(origin) {
        Err(e) => (s, Err(e)),
        Ok(who) => if s.users.contains_key(who) {
            (
                CoordStoreView {
                    users: s.users.remove(who),
                    events: s.events.push(CoordEvent::UserRemoved { who }),
                    block_number: s.block_number,
                },
                Ok(()),
            )
        } else {
            (s, Err(DispatchError::Module(Error::UserNotFound)))
        },
    }
}

/// The outcome of an update: the coordinates are set and the entry stamped.
pub open spec fn coord_update_spec(s: CoordStoreView, origin: Origin, x: i128, y: i128) -> (CoordStoreView, DispatchResult) {
    match signer_of(origin) {
        Err(e) => (s, Err(e)),
        Ok(who) => if s.users.contains_key(who) {
            (
                CoordStoreView {
                    users: s.users.insert(who, (s.block_number, Some((x, y)))),
                    events: s.events.push(CoordEvent::UserInfoChanged { who, x, y }),
                    block_number: s.block_number,
                },
                Ok(()),
            )
        } else {
            (s, Err(DispatchError::Module(Error::UserNotFound)))
        },
    }
}

/// The record store keyed by account, with optional coordinates.
pub struct CoordStore {
    users: HashMapWithView<AccountId, CoordEntry>,
    events: Vec<CoordEvent>,
    block_number: BlockNumber,
}

impl View for CoordStore {
    type V = CoordStoreView;

    closed spec fn view(&self) -> CoordStoreView {
        CoordStoreView { users: self.users@, events: self.events@, block_number: self.block_number }
    }
}

impl CoordStore {
    /// An empty store at height zero.
    pub fn new() -> (r: Self)
        ensures
            r@.users == Map::<AccountId, CoordEntry>::empty(),
            r@.events == Seq::<CoordEvent>::empty(),
            r@.block_number == 0,
            r@.wf(),
    {
        let r = CoordStore { users: HashMapWithView::new(), events: Vec::new(), block_number: 0 };
        proof {
            assert(r@.users == Map::<AccountId, CoordEntry>::empty());
        }
        r
    }

    /// Moves the chain to height `n`; heights never go back.
    pub fn set_block_number(&mut self, n: BlockNumber)
        requires
            old(self)@.block_number <= n,
            old(self)@.wf(),
        ensures
            final(self)@ == (CoordStoreView {
                users: old(self)@.users,
                events: old(self)@.events,
                block_number: n,
            }),
            final(self)@.wf(),
    {
        self.block_number = n;
        assert forall|who: AccountId| #[trigger] self@.users.contains_key(who) implies
            self@.users[who].0 <= n by {
            assert(old(self)@.users.contains_key(who));
        }
    }

    /// The current chain height.
    pub fn block_number(&self) -> (r: BlockNumber)
        ensures
            r == self@.block_number,
    {
        self.block_number
    }

    /// The entry stored for `who`, if any.
    pub fn entry(&self, who: AccountId) -> (r: Option<CoordEntry>)
        ensures
            r == self@.entry_of(who),
    {
        match self.users.get(&who) {
            Some(e) => Some(*e),
            None => None,
        }
    }

    /// Every event emitted so far, oldest first.
    pub fn events(&self) -> (r: &Vec<CoordEvent>)
        ensures
            r@ == self@.events,
    {
        &self.events
    }

    /// Registers the signer without coordinates; fails with `UserExists` if
    /// the signer already has an entry.
    pub fn add_user(&mut self, origin: Origin) -> (r: DispatchResult)
        requires
            old(self)@.wf(),
        ensures
            (final(self)@, r) == coord_add_spec(old(self)@, origin),
            final(self)@.wf(),
    {
        let who = match ensure_signed(origin) {
            Ok(who) => who,
            Err(e) => return Err(e),
        };
        if self.users.contains_key(&who) {
            return Err(DispatchError::Module(Error::UserExists));
        }
        self.users.insert(who, (self.block_number, None));
        self.events.push(CoordEvent::UserAdded { who });
        Ok(())
    }

    /// Deletes the signer's entry; fails with `UserNotFound` if there is none.
    pub fn remove_user(&mut self, origin: Origin) -> (r: DispatchResult)
        requires
            old(self)@.wf(),
        ensures
            (final(self)@, r) == coord_remove_spec(old(self)@, origin),
            final(self)@.wf(),
    {
        let who = match ensure_signed(origin) {
            Ok(who) => who,
            Err(e) => return Err(e),
        };
        if !self.users.contains_key(&who) {
            return Err(DispatchError::Module(Error::UserNotFound));
        }
        self.users.remove(&who);
        self.events.push(CoordEvent::UserRemoved { who });
        Ok(())
    }

    /// Sets the signer's coordinates and stamps the entry with the current
    /// height; fails with `UserNotFound` if the signer has no entry.
    pub fn update_user_info(&mut self, origin: Origin, x: i128, y: i128) -> (r: DispatchResult)
        requires
            old(self)@.wf(),
        ensures
            (final(self)@, r) == coord_update_spec(old(self)@, origin, x, y),
            final(self)@.wf(),
    {
        let who = match ensure_signed(origin) {
            Ok(who) => who,
            Err(e) => return Err(e),
        };
        if !self.users.contains_key(&who) {
            return Err(DispatchError::Module(Error::UserNotFound));
        }
        self.users.insert(who, (self.block_number, Some((x, y))));
        self.events.push(CoordEvent::UserInfoChanged { who, x, y });
        Ok(())
    }
}

} // verus!
