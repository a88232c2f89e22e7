use vstd::prelude::*;

use crate::asset::AssetView;
use crate::error::EscrowError;
use crate::model::{has_key, key_pos, keys_unique, lemma_key_pos, ContractView};
use crate::user::UserView;

verus! {

/// Appending an entry under a new key keeps keys unique and puts the key last.
proof fn lemma_push_new_key<V>(s: Seq<(Seq<char>, V)>, k: Seq<char>, v: V)
    requires
        keys_unique(s),
        !has_key(s, k),
    ensures
        keys_unique(s.push((k, v))),
        has_key(s.push((k, v)), k),
        key_pos(s.push((k, v)), k) == s.len(),
{
    let t = s.push((k, v));
    assert forall|i: int, j: int| 0 <= i < t.len() && 0 <= j < t.len() && i != j implies t[i].0 != t[j].0 by {
        if i < s.len() && j < s.len() {
            assert(t[i] == s[i] && t[j] == s[j]);
        } else if i < s.len() {
            assert(t[i] == s[i]);
        } else {
            assert(t[j] == s[j]);
        }
    }
    lemma_key_pos(t, k, s.len() as int);
}

/// Replacing the value under an existing key keeps keys unique and the key
/// where it was.
proof fn lemma_update_same_key<V>(s: Seq<(Seq<char>, V)>, k: Seq<char>, v: V)
    requires
        keys_unique(s),
        has_key(s, k),
    ensures
        keys_unique(s.update(key_pos(s, k), (k, v))),
        has_key(s.update(key_pos(s, k), (k, v)), k),
        key_pos(s.update(key_pos(s, k), (k, v)), k) == key_pos(s, k),
{
    let p = key_pos(s, k);
    let t = s.update(p, (k, v));
    assert forall|i: int, j: int| 0 <= i < t.len() && 0 <= j < t.len() && i != j implies t[i].0 != t[j].0 by {
        assert(t[i].0 == s[i].0);
        assert(t[j].0 == s[j].0);
    }
    lemma_key_pos(t, k, p);
}

/// Registering twice: the second registration of the same account always
/// fails with `AlreadyExists`, and a first registration of a new account
/// opens it with exactly the attached payment.
pub proof fn lemma_register_twice(s: ContractView, id: Seq<char>, d1: u128, d2: u128)
    requires
        s.wf(),
    ensures
        s.register(id, d1).0.register(id, d2) == (s.register(id, d1).0, Err::<(), EscrowError>(EscrowError::AlreadyExists)),
        !s.has_user(id) ==> s.register(id, d1).1 == Ok::<(), EscrowError>(()) && s.register(id, d1).0.user(id).balance
            == d1,
{
    if !s.has_user(id) {
        lemma_push_new_key(s.users, id, UserView { balance: d1, asset_ids: Seq::empty() });
    }
}

/// The sum of a list of amounts.
pub open spec fn total(ds: Seq<u128>) -> int
    decreases ds.len(),
{
    if ds.len() == 0 {
        0
    } else {
        ds[0] + total(ds.drop_first())
    }
}

/// The state after depositing each amount of `ds` in turn onto `id`.
pub open spec fn deposit_each(s: ContractView, id: Seq<char>, ds: Seq<u128>) -> ContractView
    decreases ds.len(),
{
    if ds.len() == 0 {
        s
    } else {
        deposit_each(s.deposit(id, ds[0]).0, id, ds.drop_first())
    }
}

/// One deposit onto a registered account adds the amount to its balance and
/// keeps the state well formed.
pub proof fn lemma_deposit_adds(s: ContractView, id: Seq<char>, d: u128)
    requires
        s.wf(),
        s.has_user(id),
        d > 0,
        s.user(id).balance + d <= u128::MAX,
    ensures
        s.deposit(id, d).1 == Ok::<(), EscrowError>(()),
        s.deposit(id, d).0.wf(),
        s.deposit(id, d).0.has_user(id),
        s.deposit(id, d).0.user(id).balance == s.user(id).balance + d,
{
    let u = s.user(id);
    lemma_update_same_key(s.users, id, UserView { balance: (u.balance + d) as u128, ..u });
}

/// Deposits accumulate: after any run of non-zero deposits whose sum fits,
/// the balance is the opening balance plus their sum. A deposit of zero
/// always fails with `InvalidAmount` and changes nothing.
pub proof fn lemma_deposits_accumulate(s: ContractView, id: Seq<char>, ds: Seq<u128>)
    requires
        s.wf(),
        s.has_user(id),
        forall|i: int| 0 <= i < ds.len() ==> ds[i] > 0,
        s.user(id).balance + total(ds) <= u128::MAX,
    ensures
        deposit_each(s, id, ds).wf(),
        deposit_each(s, id, ds).has_user(id),
        deposit_each(s, id, ds).user(id).balance == s.user(id).balance + total(ds),
        s.deposit(id, 0) == (s, Err::<(), EscrowError>(EscrowError::InvalidAmount)),
    decreases ds.len(),
{
    if ds.len() > 0 {
        lemma_total_nonneg(ds.drop_first());
        lemma_deposit_adds(s, id, ds[0]);
        let t = s.deposit(id, ds[0]).0;
        let rest = ds.drop_first();
        assert forall|i: int| 0 <= i < rest.len() implies rest[i] > 0 by {
            assert(rest[i] == ds[i + 1]);
        }
        lemma_deposits_accumulate(t, id, rest);
    }
}

/// A sum of amounts is never negative.
proof fn lemma_total_nonneg(ds: Seq<u128>)
    ensures
        total(ds) >= 0,
    decreases ds.len(),
{
    if ds.len() > 0 {
        lemma_total_nonneg(ds.drop_first());
    }
}

/// After a successful withdrawal the balance is exactly zero, whatever it
/// was, and a second withdrawal at once fails with `InsufficientFunds`.
pub proof fn lemma_withdraw_zeroes(s: ContractView, id: Seq<char>)
    requires
        s.wf(),
    ensures
        s.withdraw_all(id).1.is_ok() ==> {
            let t = s.withdraw_all(id).0;
            &&& t.wf()
            &&& t.balance_of(id) == Ok::<u128, EscrowError>(0)
            &&& t.withdraw_all(id) == (t, Err::<u128, EscrowError>(EscrowError::InsufficientFunds))
        },
{
    if s.withdraw_all(id).1.is_ok() {
        let u = s.user(id);
        lemma_update_same_key(s.users, id, UserView { balance: 0, ..u });
    }
}

/// Listing a token id that is already present always fails with
/// `AlreadyListed` and leaves its listing as it was.
pub proof fn lemma_listing_unique(s: ContractView, lister: Seq<char>, token_id: Seq<char>, price: u128, now: u64)
    requires
        s.has_asset(token_id),
    ensures
        s.list_asset(lister, token_id, price, now).1 == Err::<(), EscrowError>(EscrowError::AlreadyListed),
        s.list_asset(lister, token_id, price, now).0.asset(token_id) == s.asset(token_id),
        s.list_asset(lister, token_id, price, now).0 == s,
{
}

/// A purchase is gated: a payment under the price fails with
/// `InsufficientFunds`, a sold listing fails with `NotActive`, and a
/// successful purchase closes the listing, records the buyer and the time,
/// keeps price, seller and listing time, and makes any later purchase fail
/// with `NotActive`.
pub proof fn lemma_purchase_gated(
    s: ContractView,
    buyer: Seq<char>,
    token_id: Seq<char>,
    payment: u128,
    now: u64,
    next_buyer: Seq<char>,
    next_payment: u128,
    later: u64,
)
    requires
        s.wf(),
        s.has_asset(token_id),
    ensures
        s.asset(token_id).active && payment < s.asset(token_id).price ==> s.buy_asset(buyer, token_id, payment, now)
            == (s, Err::<AssetView, EscrowError>(EscrowError::InsufficientFunds)),
        !s.asset(token_id).active ==> s.buy_asset(buyer, token_id, payment, now) == (
            s,
            Err::<AssetView, EscrowError>(EscrowError::NotActive),
        ),
        s.buy_asset(buyer, token_id, payment, now).1.is_ok() ==> {
            let t = s.buy_asset(buyer, token_id, payment, now).0;
            let a = s.asset(token_id);
            &&& t.wf()
            &&& t.asset(token_id) == AssetView { active: false, last_user: buyer, last_time: now, ..a }
            &&& t.asset(token_id).price == a.price
            &&& t.asset(token_id).last_owner == a.last_owner
            &&& t.asset(token_id).init_time == a.init_time
            &&& t.buy_asset(next_buyer, token_id, next_payment, later).1 == Err::<AssetView, EscrowError>(
                EscrowError::NotActive,
            )
        },
{
    if s.buy_asset(buyer, token_id, payment, now).1.is_ok() {
        let a = s.asset(token_id);
        lemma_update_same_key(s.assets, token_id, AssetView { last_user: buyer, last_time: now, active: false, ..a });
    }
}

/// A reset leaves no account and no listing, and strictly raises the patch
/// component of the version.
pub proof fn lemma_reset_wipes(s: ContractView, id: Seq<char>, token_id: Seq<char>)
    requires
        s.version.2 < u32::MAX,
    ensures
        s.reset().wf(),
        s.reset().users.len() == 0,
        s.reset().assets.len() == 0,
        !s.reset().has_user(id),
        !s.reset().has_asset(token_id),
        s.reset().version.2 > s.version.2,
{
}

} // verus!
