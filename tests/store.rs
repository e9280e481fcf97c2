use user_state::{
    add_record, ensure_signed, remove_record, update_record, DispatchError, Error, Event, Origin,
    Pallet, UserState,
};

fn store_at(n: u64) -> Pallet {
    let mut p = Pallet::new();
    p.set_block_number(n);
    p
}

#[test]
fn full_lifecycle_of_one_account() {
    let i = 1u64;
    let mut p = store_at(10);
    assert_eq!(p.add_user(Origin::Signed(i), 1, 2), Ok(()));
    assert_eq!(p.user_state(i), Some(UserState::new(10, 1, 2)));
    assert_eq!(
        p.events().last(),
        Some(&Event::UserAdded { who: i, user_state: UserState::new(10, 1, 2) })
    );

    p.set_block_number(15);
    assert_eq!(p.update_user_info(Origin::Signed(i), 5, 6), Ok(()));
    assert_eq!(p.user_state(i), Some(UserState::new(15, 5, 6)));
    assert_eq!(
        p.events().last(),
        Some(&Event::UserInfoChanged { who: i, user_state: UserState::new(15, 5, 6) })
    );

    p.set_block_number(20);
    assert_eq!(p.remove_user(Origin::Signed(i)), Ok(()));
    assert_eq!(p.user_state(i), None);
    assert_eq!(
        p.events().last(),
        Some(&Event::UserRemoved { who: i, user_state: UserState::new(20, 5, 6) })
    );
    assert_eq!(p.events().len(), 3);

    assert_eq!(p.add_user(Origin::Signed(i), 7, 8), Ok(()));
    assert_eq!(p.user_state(i), Some(UserState::new(20, 7, 8)));
    assert_eq!(p.events().len(), 4);
}

#[test]
fn update_of_never_added_account_fails() {
    let mut p = store_at(3);
    p.add_user(Origin::Signed(1), 1, 1).unwrap();
    let before = p.events().len();
    assert_eq!(
        p.update_user_info(Origin::Signed(2), 4, 5),
        Err(DispatchError::Module(Error::UserNotFound))
    );
    assert_eq!(p.user_state(2), None);
    assert_eq!(p.user_state(1), Some(UserState::new(3, 1, 1)));
    assert_eq!(p.events().len(), before);
}

#[test]
fn remove_of_missing_account_fails_without_event() {
    let mut p = store_at(4);
    assert_eq!(p.remove_user(Origin::Signed(9)), Err(DispatchError::Module(Error::UserNotFound)));
    assert!(p.events().is_empty());
    assert_eq!(p.user_state(9), None);
}

#[test]
fn second_add_fails_and_keeps_first_record() {
    let mut p = store_at(5);
    assert_eq!(p.add_user(Origin::Signed(3), 1, 2), Ok(()));
    p.set_block_number(6);
    assert_eq!(p.add_user(Origin::Signed(3), 9, 9), Err(DispatchError::Module(Error::UserExists)));
    assert_eq!(p.user_state(3), Some(UserState::new(5, 1, 2)));
    assert_eq!(p.events().len(), 1);
}

#[test]
fn remove_then_query_is_absent() {
    let mut p = store_at(1);
    p.add_user(Origin::Signed(4), 0, 0).unwrap();
    p.remove_user(Origin::Signed(4)).unwrap();
    assert_eq!(p.user_state(4), None);
    let _ = p.remove_user(Origin::Signed(4));
    assert_eq!(p.user_state(4), None);
}

#[test]
fn successive_updates_advance_stamp() {
    let mut p = store_at(2);
    p.add_user(Origin::Signed(8), 0, 0).unwrap();
    p.set_block_number(7);
    p.update_user_info(Origin::Signed(8), 1, 1).unwrap();
    let first = p.user_state(8).unwrap().last_updated_block;
    assert_eq!(first, 7);
    p.set_block_number(7);
    p.update_user_info(Origin::Signed(8), 2, 2).unwrap();
    let second = p.user_state(8).unwrap().last_updated_block;
    assert_eq!(second, 7);
    p.set_block_number(12);
    p.update_user_info(Origin::Signed(8), 3, 3).unwrap();
    let third = p.user_state(8).unwrap().last_updated_block;
    assert_eq!(third, 12);
    assert!(first <= second && second <= third);
}

#[test]
fn unsigned_and_root_calls_are_bad_origin() {
    let mut p = store_at(1);
    assert_eq!(p.add_user(Origin::Root, 1, 2), Err(DispatchError::BadOrigin));
    assert_eq!(p.add_user(Origin::Unsigned, 1, 2), Err(DispatchError::BadOrigin));
    p.add_user(Origin::Signed(1), 1, 2).unwrap();
    assert_eq!(p.update_user_info(Origin::Root, 3, 4), Err(DispatchError::BadOrigin));
    assert_eq!(p.remove_user(Origin::Unsigned), Err(DispatchError::BadOrigin));
    assert_eq!(p.user_state(1), Some(UserState::new(1, 1, 2)));
    assert_eq!(p.events().len(), 1);
}

#[test]
fn accounts_are_independent() {
    let mut p = store_at(1);
    p.add_user(Origin::Signed(1), 10, 11).unwrap();
    p.add_user(Origin::Signed(2), 20, 21).unwrap();
    p.set_block_number(2);
    p.update_user_info(Origin::Signed(2), 22, 23).unwrap();
    p.remove_user(Origin::Signed(1)).unwrap();
    assert_eq!(p.user_state(1), None);
    assert_eq!(p.user_state(2), Some(UserState::new(2, 22, 23)));
}

#[test]
fn largest_values_are_kept() {
    let mut p = store_at(u64::MAX);
    p.add_user(Origin::Signed(u64::MAX), u64::MAX, 0).unwrap();
    assert_eq!(p.user_state(u64::MAX), Some(UserState::new(u64::MAX, u64::MAX, 0)));
}

#[test]
fn new_store_is_empty() {
    let p = Pallet::new();
    assert_eq!(p.block_number(), 0);
    assert!(p.events().is_empty());
    assert_eq!(p.user_state(0), None);
}

#[test]
fn ensure_signed_resolves_signer() {
    assert_eq!(ensure_signed(Origin::Signed(42)), Ok(42));
    assert_eq!(ensure_signed(Origin::Root), Err(DispatchError::BadOrigin));
    assert_eq!(ensure_signed(Origin::Unsigned), Err(DispatchError::BadOrigin));
}

#[test]
fn record_rules() {
    let s = UserState::new(3, 4, 5);
    assert_eq!(s.last_updated_block, 3);
    assert_eq!((s.x, s.y), (4, 5));
    assert_eq!(add_record(None, 9, 1, 2), Ok(UserState::new(9, 1, 2)));
    assert_eq!(add_record(Some(s), 9, 1, 2), Err(Error::UserExists));
    assert_eq!(remove_record(Some(s), 9), Ok(UserState::new(9, 4, 5)));
    assert_eq!(remove_record(None, 9), Err(Error::UserNotFound));
    assert_eq!(update_record(Some(s), 9, 1, 2), Ok(UserState::new(9, 1, 2)));
    assert_eq!(update_record(None, 9, 1, 2), Err(Error::UserNotFound));
}
