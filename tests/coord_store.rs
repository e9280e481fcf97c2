use user_state::{CoordEvent, CoordStore, DispatchError, Error, Origin};

#[test]
fn coord_lifecycle_of_one_account() {
    let mut s = CoordStore::new();
    s.set_block_number(10);
    assert_eq!(s.add_user(Origin::Signed(1)), Ok(()));
    assert_eq!(s.entry(1), Some((10, None)));
    s.set_block_number(15);
    assert_eq!(s.update_user_info(Origin::Signed(1), -5, 6), Ok(()));
    assert_eq!(s.entry(1), Some((15, Some((-5, 6)))));
    s.set_block_number(20);
    assert_eq!(s.remove_user(Origin::Signed(1)), Ok(()));
    assert_eq!(s.entry(1), None);
    assert_eq!(
        s.events().clone(),
        vec![
            CoordEvent::UserAdded { who: 1 },
            CoordEvent::UserInfoChanged { who: 1, x: -5, y: 6 },
            CoordEvent::UserRemoved { who: 1 },
        ]
    );
    assert_eq!(s.add_user(Origin::Signed(1)), Ok(()));
    assert_eq!(s.entry(1), Some((20, None)));
}

#[test]
fn coord_errors_change_nothing() {
    let mut s = CoordStore::new();
    assert_eq!(s.update_user_info(Origin::Signed(2), 1, 1), Err(DispatchError::Module(Error::UserNotFound)));
    assert_eq!(s.remove_user(Origin::Signed(2)), Err(DispatchError::Module(Error::UserNotFound)));
    assert_eq!(s.add_user(Origin::Root), Err(DispatchError::BadOrigin));
    assert!(s.events().is_empty());
    assert_eq!(s.add_user(Origin::Signed(2)), Ok(()));
    assert_eq!(s.add_user(Origin::Signed(2)), Err(DispatchError::Module(Error::UserExists)));
    assert_eq!(s.entry(2), Some((0, None)));
    assert_eq!(s.events().len(), 1);
    assert_eq!(s.block_number(), 0);
}

#[test]
fn coord_extreme_coordinates_are_kept() {
    let mut s = CoordStore::new();
    s.add_user(Origin::Signed(3)).unwrap();
    s.update_user_info(Origin::Signed(3), i128::MIN, i128::MAX).unwrap();
    assert_eq!(s.entry(3), Some((0, Some((i128::MIN, i128::MAX)))));
}
