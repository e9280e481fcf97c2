//! The store: one record per account, the chain height supplied by the host,
//! and the append-only log of events.
use vstd::prelude::*;
use vstd::hash_map::HashMapWithView;

use crate::record::{
    add_record, add_record_spec, remove_record, remove_record_spec, update_record,
    update_record_spec,
};
use crate::types::{
    AccountId, BlockNumber, DispatchError, DispatchResult, Event, Origin, UserState,
    ensure_signed, signer_of,
};

verus! {

broadcast use vstd::std_specs::hash::group_hash_axioms;

/// The abstract state of a store.
pub ghost struct StoreView {
    /// The record of each registered account.
    pub users: Map<AccountId, UserState>,
    /// Every event emitted so far, oldest first.
    pub events: Seq<Event>,
    /// The current chain height.
    pub block_number: BlockNumber,
}

impl StoreView {
    /// No record was stamped later than the current height.
    pub open spec fn wf(self) -> bool {
        forall|who: AccountId| #[trigger] self.users.contains_key(who)
            ==> self.users[who].last_updated_block <= self.block_number
    }

    /// The record stored for `who`, if any.
    pub open spec fn record_of(self, who: AccountId) -> Option<UserState> {
        if self.users.contains_key(who) {
            Some(self.users[who])
        } else {
            None
        }
    }
}

/// The outcome of an add: the new state and the call's result.
pub open spec fn add_user_spec(s: StoreView, origin: Origin, x: u64, y: u64) -> (StoreView, DispatchResult) {
    match signer_of(origin) {
        Err(e) => (s, Err(e)),
        Ok(who) => match add_record_spec(s.record_of(who), s.block_number, x, y) {
            Err(e) => (s, Err(DispatchError::Module(e))),
            Ok(user_state) => (
                StoreView {
                    users: s.users.insert(who, user_state),
                    events: s.events.push(Event::UserAdded { who, user_state }),
                    block_number: s.block_number,
                },
                Ok(()),
            ),
        },
    }
}

/// The outcome of a removal: the new state and the call's result.
pub open spec fn remove_user_spec(s: StoreView, origin: Origin) -> (StoreView, DispatchResult) {
    match signer_of(origin) {
        Err(e) => (s, Err(e)),
        Ok(who) => match remove_record_spec(s.record_of(who), s.block_number) {
            Err(e) => (s, Err(DispatchError::Module(e))),
            Ok(user_state) => (
                StoreView {
                    users: s.users.remove(who),
                    events: s.events.push(Event::UserRemoved { who, user_state }),
                    block_number: s.block_number,
                },
                Ok(()),
            ),
        },
    }
}

/// The outcome of an update: the new state and the call's result.
pub open spec fn update_user_info_spec(s: StoreView, origin: Origin, x: u64, y: u64) -> (StoreView, DispatchResult) {
    match signer_of(origin) {
        Err(e) => (s, Err(e)),
        Ok(who) => match update_record_spec(s.record_of(who), s.block_number, x, y) {
            Err(e) => (s, Err(DispatchError::Module(e))),
            Ok(user_state) => (
                StoreView {
                    users: s.users.insert(who, user_state),
                    events: s.events.push(Event::UserInfoChanged { who, user_state }),
                    block_number: s.block_number,
                },
                Ok(()),
            ),
        },
    }
}

/// The state once the chain has reached height `n`.
pub open spec fn set_block_number_spec(s: StoreView, n: BlockNumber) -> StoreView {
    StoreView { users: s.users, events: s.events, block_number: n }
}

/// The record store.
pub struct Pallet {
    users: HashMapWithView<AccountId, UserState>,
    events: Vec<Event>,
    block_number: BlockNumber,
}

impl View for Pallet {
    type V = StoreView;

    closed spec fn view(&self) -> StoreView {
        StoreView { users: self.users@, events: self.events@, block_number: self.block_number }
    }
}

impl Pallet {
    /// An empty store at height zero.
    pub fn new() -> (r: Self)
        ensures
            r@.users == Map::<AccountId, UserState>::empty(),
            r@.events == Seq::<Event>::empty(),
            r@.block_number == 0,
            r@.wf(),
    {
        let r = Pallet { users: HashMapWithView::new(), events: Vec::new(), block_number: 0 };
        proof {
            assert(r@.users == Map::<AccountId, UserState>::empty());
        }
        r
    }

    /// Moves the chain to height `n`; heights never go back.
    pub fn set_block_number(&mut self, n: BlockNumber)
        requires
            old(self)@.block_number <= n,
            old(self)@.wf(),
        ensures
            final(self)@ == set_block_number_spec(old(self)@, n),
            final(self)@.wf(),
    {
        self.block_number = n;
        assert forall|who: AccountId| #[trigger] self@.users.contains_key(who) implies
            self@.users[who].last_updated_block <= n by {
            assert(old(self)@.users.contains_key(who));
        }
    }

    /// The current chain height.
    pub fn block_number(&self) -> (r: BlockNumber)
        ensures
            r == self@.block_number,
    {
        self.block_number
    }

    /// The record stored for `who`, if any.
    pub fn user_state(&self, who: AccountId) -> (r: Option<UserState>)
        ensures
            r == self@.record_of(who),
    {
        match self.users.get(&who) {
            Some(s) => Some(*s),
            None => None,
        }
    }

    /// Every event emitted so far, oldest first.
    pub fn events(&self) -> (r: &Vec<Event>)
        ensures
            r@ == self@.events,
    {
        &self.events
    }

    fn deposit_event(&mut self, event: Event)
        ensures
            final(self)@ == (StoreView {
                users: old(self)@.users,
                events: old(self)@.events.push(event),
                block_number: old(self)@.block_number,
            }),
    {
        self.events.push(event);
    }

    /// Registers the signer with a record at the current height; fails with
    /// `UserExists` if the signer already has one.
    pub fn add_user(&mut self, origin: Origin, x: u64, y: u64) -> (r: DispatchResult)
        requires
            old(self)@.wf(),
        ensures
            (final(self)@, r) == add_user_spec(old(self)@, origin, x, y),
            final(self)@.wf(),
    {
        let who = match ensure_signed(origin) {
            Ok(who) => who,
            Err(e) => return Err(e),
        };
        let existing = self.user_state(who);
        let user_state = match add_record(existing, self.block_number, x, y) {
            Ok(s) => s,
            Err(e) => return Err(DispatchError::Module(e)),
        };
        self.users.insert(who, user_state);
        self.deposit_event(Event::UserAdded { who, user_state });
        Ok(())
    }

    /// Removes the signer's record and announces it stamped with the current
    /// height; fails with `UserNotFound` if the signer has none.
    pub fn remove_user(&mut self, origin: Origin) -> (r: DispatchResult)
        requires
            old(self)@.wf(),
        ensures
            (final(self)@, r) == remove_user_spec(old(self)@, origin),
            final(self)@.wf(),
    {
        let who = match ensure_signed(origin) {
            Ok(who) => who,
            Err(e) => return Err(e),
        };
        let existing = self.user_state(who);
        let user_state = match remove_record(existing, self.block_number) {
            Ok(s) => s,
            Err(e) => return Err(DispatchError::Module(e)),
        };
        self.users.remove(&who);
        self.deposit_event(Event::UserRemoved { who, user_state });
        Ok(())
    }

    /// Sets the signer's coordinates and stamps the record with the current
    /// height; fails with `UserNotFound` if the signer has no record.
    pub fn update_user_info(&mut self, origin: Origin, x: u64, y: u64) -> (r: DispatchResult)
        requires
            old(self)@.wf(),
        ensures
            (final(self)@, r) == update_user_info_spec(old(self)@, origin, x, y),
            final(self)@.wf(),
    {
        let who = match ensure_signed(origin) {
            Ok(who) => who,
            Err(e) => return Err(e),
        };
        let existing = self.user_state(who);
        let user_state = match update_record(existing, self.block_number, x, y) {
            Ok(s) => s,
            Err(e) => return Err(DispatchError::Module(e)),
        };
        self.users.insert(who, user_state);
        self.deposit_event(Event::UserInfoChanged { who, user_state });
        Ok(())
    }
}

} // verus!
