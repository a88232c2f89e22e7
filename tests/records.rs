use escrow::{Asset, EscrowContract, StorageKey, User, UserV1, Version, VersionedUser};

#[test]
fn versioned_user_upgrades_to_latest() {
    let stored = VersionedUser::V1(UserV1 {
        account_id: "foo".to_string(),
        balance: 42,
        asset_ids: vec!["T1".to_string()],
    });
    let u: UserV1 = UserV1::from(stored);
    assert_eq!(u.account_id, "foo");
    assert_eq!(u.balance, 42);
    assert_eq!(u.asset_ids, vec!["T1".to_string()]);
}

#[test]
fn fresh_user_has_no_assets() {
    let u = User::new(9);
    assert_eq!(u.balance, 9);
    assert!(u.asset_ids.is_empty());
    let d = u.duplicate();
    assert_eq!(d.balance, 9);
}

#[test]
fn storage_keys_are_distinct() {
    assert_ne!(StorageKey::Users, StorageKey::Assets);
}

#[test]
fn restore_rebuilds_stored_state() {
    let users = vec![("a".to_string(), User::new(4)), ("b".to_string(), User::new(6))];
    let assets = vec![(
        "T1".to_string(),
        Asset {
            price: 5,
            init_time: 1,
            last_time: 2,
            last_owner: "a".to_string(),
            last_user: "b".to_string(),
            active: false,
        },
    )];
    let c = EscrowContract::restore("nft".to_string(), users, assets, Version(0, 0, 7)).unwrap();
    assert_eq!(c.user_count(), 2);
    assert_eq!(c.asset_count(), 1);
    assert_eq!(c.get_balance(&"b".to_string()), Ok(6));
    assert_eq!(c.view_asset(&"T1".to_string()).unwrap().last_user, "b");
    assert_eq!(c.current_version(), Version(0, 0, 7));
}

#[test]
fn restore_refuses_repeated_ids() {
    let users = vec![("a".to_string(), User::new(4)), ("a".to_string(), User::new(6))];
    assert!(EscrowContract::restore("nft".to_string(), users, Vec::new(), Version(0, 0, 1)).is_none());
}
