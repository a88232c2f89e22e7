use escrow::{EscrowContract, EscrowError, TransferFailure, Version};

const NFT: &str = "nft.testnet";
const ESCROW: &str = "escrow.testnet";

fn s(v: &str) -> String {
    v.to_string()
}

#[test]
fn listing_records_asset_and_requests_custody() {
    let mut contract = EscrowContract::new(s(NFT));
    let t = contract
        .place_new_asset(s("alice"), s(ESCROW), s("T1"), 50, Some(3), Some(s("memo")), 1, 1000)
        .unwrap();
    assert_eq!(t.nft_account_id, NFT);
    assert_eq!(t.receiver_id, ESCROW);
    assert_eq!(t.token_id, "T1");
    assert_eq!(t.approval_id, Some(3));
    assert_eq!(t.memo, Some(s("memo")));
    assert_eq!(t.attached_deposit, 1);
    assert_eq!(t.gas, 5_000_000_000_000);
    assert_eq!(t.callback_gas, 5_000_000_000_000);
    let a = contract.view_asset(&s("T1")).unwrap();
    assert_eq!(a.price, 50);
    assert_eq!(a.init_time, 1000);
    assert_eq!(a.last_time, 1000);
    assert_eq!(a.last_owner, "alice");
    assert_eq!(a.last_user, "alice");
    assert!(a.active);
    assert_eq!(contract.asset_count(), 1);
}

#[test]
fn listing_twice_fails_and_keeps_the_first() {
    let mut contract = EscrowContract::new(s(NFT));
    contract.place_new_asset(s("alice"), s(ESCROW), s("T1"), 50, None, None, 0, 1000).unwrap();
    let r = contract.place_new_asset(s("bob"), s(ESCROW), s("T1"), 9, None, None, 0, 2000);
    assert_eq!(r.unwrap_err(), EscrowError::AlreadyListed);
    let a = contract.view_asset(&s("T1")).unwrap();
    assert_eq!(a.price, 50);
    assert_eq!(a.last_owner, "alice");
    assert_eq!(a.init_time, 1000);
    assert_eq!(contract.asset_count(), 1);
}

#[test]
fn buying_unlisted_fails() {
    let mut contract = EscrowContract::new(s(NFT));
    assert_eq!(contract.buy_asset(s("bob"), s("T9"), 10, 5).unwrap_err(), EscrowError::NotListed);
}

#[test]
fn buying_under_price_fails() {
    let mut contract = EscrowContract::new(s(NFT));
    contract.place_new_asset(s("alice"), s(ESCROW), s("T1"), 50, None, None, 0, 1000).unwrap();
    assert_eq!(contract.buy_asset(s("bob"), s("T1"), 49, 2000).unwrap_err(), EscrowError::InsufficientFunds);
    assert!(contract.view_asset(&s("T1")).unwrap().active);
}

#[test]
fn buying_at_exact_price_succeeds_and_closes_listing() {
    let mut contract = EscrowContract::new(s(NFT));
    contract.place_new_asset(s("alice"), s(ESCROW), s("T1"), 50, None, None, 0, 1000).unwrap();
    let (t, p) = contract.buy_asset(s("bob"), s("T1"), 50, 2000).unwrap();
    assert_eq!(t.receiver_id, "bob");
    assert_eq!(t.token_id, "T1");
    assert_eq!(t.approval_id, None);
    assert_eq!(t.memo, None);
    assert_eq!(t.attached_deposit, 50);
    assert_eq!(p.receiver_id, "alice");
    assert_eq!(p.amount, 50);
    let a = contract.view_asset(&s("T1")).unwrap();
    assert!(!a.active);
    assert_eq!(a.last_user, "bob");
    assert_eq!(a.last_time, 2000);
    assert_eq!(a.price, 50);
    assert_eq!(a.last_owner, "alice");
    assert_eq!(a.init_time, 1000);
    assert_eq!(contract.buy_asset(s("carol"), s("T1"), 500, 3000).unwrap_err(), EscrowError::NotActive);
}

#[test]
fn view_asset_of_unknown_token_fails() {
    let contract = EscrowContract::new(s(NFT));
    assert_eq!(contract.view_asset(&s("T1")).unwrap_err(), EscrowError::NotFound);
    assert!(contract.view_assets().is_empty());
}

#[test]
fn assets_listed_in_order() {
    let mut contract = EscrowContract::new(s(NFT));
    contract.place_new_asset(s("alice"), s(ESCROW), s("T2"), 7, None, None, 0, 1).unwrap();
    contract.place_new_asset(s("bob"), s(ESCROW), s("T1"), 8, None, None, 0, 2).unwrap();
    let all = contract.view_assets();
    assert_eq!(all.len(), 2);
    assert_eq!(all[0].0, "T2");
    assert_eq!(all[0].1.price, 7);
    assert_eq!(all[1].0, "T1");
    assert_eq!(all[1].1.last_owner, "bob");
}

#[test]
fn transfer_callback_reports_outcome() {
    let contract = EscrowContract::new(s(NFT));
    assert!(contract.query_transfer_callback(Ok(())));
    assert!(!contract.query_transfer_callback(Err(TransferFailure::Failed)));
}

#[test]
fn query_transfer_targets_the_registry() {
    let contract = EscrowContract::new(s(NFT));
    let t = contract.query_transfer(s("bob"), s("T3"), Some(1), None, 12);
    assert_eq!(t.nft_account_id, NFT);
    assert_eq!(contract.nft_account_id(), NFT);
    assert_eq!(t.receiver_id, "bob");
    assert_eq!(t.token_id, "T3");
    assert_eq!(t.approval_id, Some(1));
    assert_eq!(t.attached_deposit, 12);
}

#[test]
fn reset_wipes_everything_and_bumps_patch() {
    let mut contract = EscrowContract::new(s(NFT));
    contract.new_user(s("alice"), 10).unwrap();
    contract.place_new_asset(s("alice"), s(ESCROW), s("T1"), 50, None, None, 0, 1000).unwrap();
    let before = contract.current_version();
    contract.reset_state();
    assert!(contract.view_users().is_empty());
    assert!(contract.view_assets().is_empty());
    assert_eq!(contract.user_count(), 0);
    assert_eq!(contract.asset_count(), 0);
    let after = contract.current_version();
    assert!(after.2 > before.2);
    assert_eq!(after, Version(before.0, before.1, before.2 + 1));
    assert_eq!(contract.get_balance(&s("alice")), Err(EscrowError::NotRegistered));
    contract.new_user(s("alice"), 3).unwrap();
    assert_eq!(contract.get_balance(&s("alice")), Ok(3));
}

#[test]
fn version_inc_advances_patch_only() {
    let mut v = Version(1, 2, 3);
    v.inc();
    assert_eq!(v, Version(1, 2, 4));
}

#[test]
fn end_to_end_sale() {
    let a = s("a.testnet");
    let b = s("b.testnet");
    let mut contract = EscrowContract::new(s(NFT));
    contract.new_user(a.clone(), 100).unwrap();
    contract.place_new_asset(a.clone(), s(ESCROW), s("T1"), 50, None, None, 0, 10).unwrap();
    contract.new_user(b.clone(), 0).unwrap();
    contract.deposit(b.clone(), 200).unwrap();
    let (_, pay) = contract.buy_asset(b.clone(), s("T1"), 60, 20).unwrap();
    assert_eq!(pay.receiver_id, a);
    assert_eq!(pay.amount, 50);
    let t1 = contract.view_asset(&s("T1")).unwrap();
    assert!(!t1.active);
    assert_eq!(t1.last_user, b);
    assert_eq!(contract.get_balance(&a), Ok(100));
    assert_eq!(contract.get_balance(&b), Ok(200));
}
