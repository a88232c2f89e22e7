use vstd::prelude::*;

use crate::asset::{Asset, AssetView};
use crate::error::EscrowError;
use crate::model::{key_pos, keys_unique, lemma_key_pos, ContractView};
use crate::transfer::{is_transfer, NftTransfer, Payment, TransferFailure, TRANSFER_GAS};
use crate::user::{User, UserView};
use crate::version::Version;

verus! {

/// The accounts of a list of records, as mathematical values.
pub open spec fn users_view(v: Seq<(String, User)>) -> Seq<(Seq<char>, UserView)> {
    v.map_values(|e: (String, User)| (e.0@, e.1@))
}

/// The listings of a list of records, as mathematical values.
pub open spec fn assets_view(v: Seq<(String, Asset)>) -> Seq<(Seq<char>, AssetView)> {
    v.map_values(|e: (String, Asset)| (e.0@, e.1@))
}

/// The escrow: an account ledger and a registry of listed tokens, with the
/// schema version under which both are stored.
///
/// Calls that need the host's context take it as plain values: the caller's
/// account id, the attached payment and the block time. Calls that must reach
/// outside the escrow return what is to be sent: a token transfer request or a
/// native payment.
pub struct EscrowContract {
    nft_account_id: String,
    users: Vec<(String, User)>,
    assets: Vec<(String, Asset)>,
    asset_amount: u16,
    user_amount: u16,
    escrow_ver: Version,
}

impl View for EscrowContract {
    type V = ContractView;

    closed spec fn view(&self) -> ContractView {
        ContractView {
            nft_account_id: self.nft_account_id@,
            users: users_view(self.users@),
            assets: assets_view(self.assets@),
            asset_amount: self.asset_amount,
            user_amount: self.user_amount,
            version: self.escrow_ver,
        }
    }
}

impl EscrowContract {
    /// An empty escrow that moves tokens through the registry `nft_account_id`.
    pub fn new(nft_account_id: String) -> (r: Self)
        ensures
            r@.wf(),
            r@.nft_account_id == nft_account_id@,
            r@.users == Seq::<(Seq<char>, UserView)>::empty(),
            r@.assets == Seq::<(Seq<char>, AssetView)>::empty(),
            r@.user_amount == 0,
            r@.asset_amount == 0,
            r@.version == Version(0, 0, 1),
    {
        let r = EscrowContract {
            nft_account_id,
            users: Vec::new(),
            assets: Vec::new(),
            asset_amount: 0,
            user_amount: 0,
            escrow_ver: Version(0, 0, 1),
        };
        assert(users_view(r.users@) =~= Seq::<(Seq<char>, UserView)>::empty());
        assert(assets_view(r.assets@) =~= Seq::<(Seq<char>, AssetView)>::empty());
        r
    }

    /// Where the account of `id` stands, if it is registered.
    fn find_user(&self, id: &String) -> (r: Option<usize>)
        requires
            self@.wf(),
        ensures
            match r {
                Some(i) => i < self.users@.len() && self@.has_user(id@) && key_pos(self@.users, id@) == i,
                None => !self@.has_user(id@),
            },
    {
        let mut i: usize = 0;
        while i < self.users.len()
            invariant
                i <= self.users@.len(),
                self@.wf(),
                forall|j: int| 0 <= j < i ==> self@.users[j].0 != id@,
            decreases self.users.len() - i,
        {
            if self.users[i].0 == *id {
                proof {
                    assert(self@.users[i as int].0 == id@);
                    lemma_key_pos(self@.users, id@, i as int);
                }
                return Some(i);
            }
            assert(self@.users[i as int].0 != id@);
            i += 1;
        }
        assert forall|j: int| 0 <= j < self@.users.len() implies self@.users[j].0 != id@ by {}
        None
    }

    /// Registers `sender_id` with the attached `deposit` as its opening balance.
    pub fn new_user(&mut self, sender_id: String, deposit: u128) -> (r: Result<(), EscrowError>)
        requires
            old(self)@.wf(),
            !old(self)@.has_user(sender_id@) ==> old(self)@.users.len() < u16::MAX,
        ensures
            final(self)@.wf(),
            (final(self)@, r) == old(self)@.register(sender_id@, deposit),
    {
        match self.find_user(&sender_id) {
            Some(_) => Err(EscrowError::AlreadyExists),
            None => {
                self.user_amount += 1;
                self.users.push((sender_id, User::new(deposit)));
                proof {
                    let s = old(self)@;
                    let nu = users_view(self.users@);
                    assert(nu =~= s.users.push((sender_id@, UserView { balance: deposit, asset_ids: Seq::empty() })));
                    assert(keys_unique(nu)) by {
                        assert forall|i: int, j: int| 0 <= i < nu.len() && 0 <= j < nu.len() && i != j
                            implies nu[i].0 != nu[j].0 by {
                            if i < s.users.len() && j < s.users.len() {
                            } else if i < s.users.len() {
                                assert(s.users[i].0 == nu[i].0);
                            } else {
                                assert(s.users[j].0 == nu[j].0);
                            }
                        }
                    }
                }
                Ok(())
            },
        }
    }

    /// Sets the balance of the account at `i`, keeping everything else.
    fn set_balance(&mut self, i: usize, balance: u128)
        requires
            old(self)@.wf(),
            i < old(self).users@.len(),
        ensures
            final(self)@.wf(),
            final(self)@ == (ContractView {
                users: old(self)@.users.update(
                    i as int,
                    (old(self)@.users[i as int].0, UserView { balance, ..old(self)@.users[i as int].1 }),
                ),
                ..old(self)@
            }),
    {
        self.users[i].1.balance = balance;
        proof {
            let s = old(self)@;
            let nu = users_view(self.users@);
            assert(nu =~= s.users.update(i as int, (s.users[i as int].0, UserView { balance, ..s.users[i as int].1 })));
            assert(keys_unique(nu)) by {
                assert forall|a: int, b: int| 0 <= a < nu.len() && 0 <= b < nu.len() && a != b
                    implies nu[a].0 != nu[b].0 by {
                    assert(nu[a].0 == s.users[a].0);
                    assert(nu[b].0 == s.users[b].0);
                }
            }
        }
    }

    /// Adds the attached `deposit` to the balance of `sender_id`.
    pub fn deposit(&mut self, sender_id: String, deposit: u128) -> (r: Result<(), EscrowError>)
        requires
            old(self)@.wf(),
            deposit > 0 && old(self)@.has_user(sender_id@) ==> old(self)@.user(sender_id@).balance + deposit
                <= u128::MAX,
        ensures
            final(self)@.wf(),
            (final(self)@, r) == old(self)@.deposit(sender_id@, deposit),
    {
        if deposit == 0 {
            return Err(EscrowError::InvalidAmount);
        }
        match self.find_user(&sender_id) {
            Some(i) => {
                let new_balance = self.users[i].1.balance + deposit;
                self.set_balance(i, new_balance);
                Ok(())
            },
            None => Err(EscrowError::NotRegistered),
        }
    }

    /// Empties the balance of `sender_id` and returns the payment of what it
    /// held back to `sender_id`. The balance is zeroed before the payment is
    /// sent, and a failed payment is not put back.
    pub fn withdrow_all(&mut self, sender_id: String) -> (r: Result<Payment, EscrowError>)
        requires
            old(self)@.wf(),
        ensures
            final(self)@.wf(),
            final(self)@ == old(self)@.withdraw_all(sender_id@).0,
            match r {
                Ok(p) => old(self)@.withdraw_all(sender_id@).1 == Ok::<u128, EscrowError>(p.amount)
                    && p.receiver_id == sender_id,
                Err(e) => old(self)@.withdraw_all(sender_id@).1 == Err::<u128, EscrowError>(e),
            },
    {
        match self.find_user(&sender_id) {
            Some(i) => {
                let balance = self.users[i].1.balance;
                if balance > 0 {
                    self.set_balance(i, 0);
                    Ok(Payment { receiver_id: sender_id, amount: balance })
                } else {
                    Err(EscrowError::InsufficientFunds)
                }
            },
            None => Err(EscrowError::NotRegistered),
        }
    }

    /// The balance of `sender_id`.
    pub fn get_balance(&self, sender_id: &String) -> (r: Result<u128, EscrowError>)
        requires
            self@.wf(),
        ensures
            r == self@.balance_of(sender_id@),
    {
        match self.find_user(sender_id) {
            Some(i) => Ok(self.users[i].1.balance),
            None => Err(EscrowError::NotRegistered),
        }
    }

    /// The account of `sender_id`.
    pub fn view_user(&self, sender_id: &String) -> (r: Result<User, EscrowError>)
        requires
            self@.wf(),
        ensures
            match r {
                Ok(u) => self@.has_user(sender_id@) && u@ == self@.user(sender_id@),
                Err(e) => !self@.has_user(sender_id@) && e == EscrowError::NotRegistered,
            },
    {
        match self.find_user(sender_id) {
            Some(i) => Ok(self.users[i].1.duplicate()),
            None => Err(EscrowError::NotRegistered),
        }
    }

    /// Every account with its id, in the order of registration.
    pub fn view_users(&self) -> (r: Vec<(String, User)>)
        ensures
            users_view(r@) == self@.users,
    {
        let mut r: Vec<(String, User)> = Vec::new();
        let mut i: usize = 0;
        while i < self.users.len()
            invariant
                i <= self.users@.len(),
                users_view(r@) == users_view(self.users@).subrange(0, i as int),
            decreases self.users.len() - i,
        {
            let ghost prev = r@;
            let entry = (self.users[i].0.clone(), self.users[i].1.duplicate());
            assert((entry.0@, entry.1@) == users_view(self.users@)[i as int]);
            r.push(entry);
            assert(r@ == prev.push(entry));
            i += 1;
            assert(users_view(r@) =~= users_view(prev).push((entry.0@, entry.1@)));
            assert(users_view(r@) =~= users_view(self.users@).subrange(0, i as int));
        }
        assert(users_view(self.users@).subrange(0, i as int) =~= users_view(self.users@));
        r
    }

    /// Where the listing of `token_id` stands, if there is one.
    fn find_asset(&self, token_id: &String) -> (r: Option<usize>)
        requires
            self@.wf(),
        ensures
            match r {
                Some(i) => i < self.assets@.len() && self@.has_asset(token_id@) && key_pos(
                    self@.assets,
                    token_id@,
                ) == i,
                None => !self@.has_asset(token_id@),
            },
    {
        let mut i: usize = 0;
        while i < self.assets.len()
            invariant
                i <= self.assets@.len(),
                self@.wf(),
                forall|j: int| 0 <= j < i ==> self@.assets[j].0 != token_id@,
            decreases self.assets.len() - i,
        {
            if self.assets[i].0 == *token_id {
                proof {
                    assert(self@.assets[i as int].0 == token_id@);
                    lemma_key_pos(self@.assets, token_id@, i as int);
                }
                return Some(i);
            }
            assert(self@.assets[i as int].0 != token_id@);
            i += 1;
        }
        assert forall|j: int| 0 <= j < self@.assets.len() implies self@.assets[j].0 != token_id@ by {}
        None
    }

    /// The request that moves `token_id` to `receiver_id` through the token
    /// registry, forwarding `attached_deposit`. Its continuation is
    /// `query_transfer_callback`.
    pub fn query_transfer(
        &self,
        receiver_id: String,
        token_id: String,
        approval_id: Option<u64>,
        memo: Option<String>,
        attached_deposit: u128,
    ) -> (r: NftTransfer)
        ensures
            is_transfer(r, self@.nft_account_id, receiver_id@, token_id@, approval_id, memo, attached_deposit),
    {
        NftTransfer {
            nft_account_id: self.nft_account_id.clone(),
            receiver_id,
            token_id,
            approval_id,
            memo,
            attached_deposit,
            gas: TRANSFER_GAS,
            callback_gas: TRANSFER_GAS,
        }
    }

    /// The continuation of a transfer: true exactly when it succeeded. A
    /// failure is reported only; nothing done around the transfer is undone.
    pub fn query_transfer_callback(&self, call_result: Result<(), TransferFailure>) -> (r: bool)
        ensures
            r == call_result.is_ok(),
    {
        match call_result {
            Ok(()) => true,
            Err(_) => false,
        }
    }

    /// Lists `token_id` for `sender_id` at `price`, at block time `now`, and
    /// returns the request that moves the token into the escrow's own account
    /// `current_account_id`, forwarding `attached_deposit`. The listing is
    /// recorded at once, before the transfer is known to have succeeded.
    pub fn place_new_asset(
        &mut self,
        sender_id: String,
        current_account_id: String,
        token_id: String,
        price: u128,
        approval_id: Option<u64>,
        memo: Option<String>,
        attached_deposit: u128,
        now: u64,
    ) -> (r: Result<NftTransfer, EscrowError>)
        requires
            old(self)@.wf(),
            !old(self)@.has_asset(token_id@) ==> old(self)@.assets.len() < u16::MAX,
        ensures
            final(self)@.wf(),
            final(self)@ == old(self)@.list_asset(sender_id@, token_id@, price, now).0,
            match r {
                Ok(t) => old(self)@.list_asset(sender_id@, token_id@, price, now).1 == Ok::<(), EscrowError>(())
                    && is_transfer(
                    t,
                    old(self)@.nft_account_id,
                    current_account_id@,
                    token_id@,
                    approval_id,
                    memo,
                    attached_deposit,
                ),
                Err(e) => old(self)@.list_asset(sender_id@, token_id@, price, now).1 == Err::<(), EscrowError>(e),
            },
    {
        if let Some(_) = self.find_asset(&token_id) {
            return Err(EscrowError::AlreadyListed);
        }
        let request = self.query_transfer(current_account_id, token_id.clone(), approval_id, memo, attached_deposit);
        let asset = Asset {
            price,
            init_time: now,
            last_time: now,
            last_user: sender_id.clone(),
            last_owner: sender_id,
            active: true,
        };
        self.assets.push((token_id, asset));
        self.asset_amount += 1;
        proof {
            let s = old(self)@;
            let na = assets_view(self.assets@);
            assert(na =~= s.assets.push((token_id@, ContractView::new_listing(sender_id@, price, now))));
            assert(keys_unique(na)) by {
                assert forall|i: int, j: int| 0 <= i < na.len() && 0 <= j < na.len() && i != j
                    implies na[i].0 != na[j].0 by {
                    if i < s.assets.len() && j < s.assets.len() {
                    } else if i < s.assets.len() {
                        assert(s.assets[i].0 == na[i].0);
                    } else {
                        assert(s.assets[j].0 == na[j].0);
                    }
                }
            }
        }
        Ok(request)
    }

    /// Closes the listing at `i` as bought by `buyer` at time `now`.
    fn mark_sold(&mut self, i: usize, buyer: String, now: u64)
        requires
            old(self)@.wf(),
            i < old(self).assets@.len(),
        ensures
            final(self)@.wf(),
            final(self)@ == (ContractView {
                assets: old(self)@.assets.update(
                    i as int,
                    (
                        old(self)@.assets[i as int].0,
                        AssetView { last_user: buyer@, last_time: now, active: false, ..old(self)@.assets[i as int].1 },
                    ),
                ),
                ..old(self)@
            }),
    {
        self.assets[i].1.last_user = buyer;
        self.assets[i].1.last_time = now;
        self.assets[i].1.active = false;
        proof {
            let s = old(self)@;
            let na = assets_view(self.assets@);
            assert(na =~= s.assets.update(
                i as int,
                (s.assets[i as int].0, AssetView { last_user: buyer@, last_time: now, active: false, ..s.assets[i as int].1 }),
            ));
            assert(keys_unique(na)) by {
                assert forall|a: int, b: int| 0 <= a < na.len() && 0 <= b < na.len() && a != b
                    implies na[a].0 != na[b].0 by {
                    assert(na[a].0 == s.assets[a].0);
                    assert(na[b].0 == s.assets[b].0);
                }
            }
        }
    }

    /// Buys `token_id` for `sender_id` with `attached_deposit` as payment, at
    /// block time `now`. Returns the request that moves the token from the
    /// escrow to the buyer, forwarding the payment, and the payment of the
    /// price to the listing's `last_owner`. The listing is closed at once,
    /// before either is known to have gone through.
    pub fn buy_asset(&mut self, sender_id: String, token_id: String, attached_deposit: u128, now: u64) -> (r:
        Result<(NftTransfer, Payment), EscrowError>)
        requires
            old(self)@.wf(),
        ensures
            final(self)@.wf(),
            final(self)@ == old(self)@.buy_asset(sender_id@, token_id@, attached_deposit, now).0,
            match r {
                Ok((t, p)) => old(self)@.buy_asset(sender_id@, token_id@, attached_deposit, now).1 == Ok::<
                    AssetView,
                    EscrowError,
                >(old(self)@.asset(token_id@)) && is_transfer(
                    t,
                    old(self)@.nft_account_id,
                    sender_id@,
                    token_id@,
                    None,
                    None,
                    attached_deposit,
                ) && p.receiver_id@ == old(self)@.asset(token_id@).last_owner && p.amount == old(
                    self,
                )@.asset(token_id@).price,
                Err(e) => old(self)@.buy_asset(sender_id@, token_id@, attached_deposit, now).1 == Err::<
                    AssetView,
                    EscrowError,
                >(e),
            },
    {
        let i = match self.find_asset(&token_id) {
            Some(i) => i,
            None => return Err(EscrowError::NotListed),
        };
        if !self.assets[i].1.active {
            return Err(EscrowError::NotActive);
        }
        if attached_deposit < self.assets[i].1.price {
            return Err(EscrowError::InsufficientFunds);
        }
        let request = self.query_transfer(sender_id.clone(), token_id, None, None, attached_deposit);
        let payment = Payment { receiver_id: self.assets[i].1.last_owner.clone(), amount: self.assets[i].1.price };
        self.mark_sold(i, sender_id, now);
        Ok((request, payment))
    }

    /// The listing of `token_id`.
    pub fn view_asset(&self, token_id: &String) -> (r: Result<Asset, EscrowError>)
        requires
            self@.wf(),
        ensures
            match r {
                Ok(a) => self@.asset_of(token_id@) == Ok::<AssetView, EscrowError>(a@),
                Err(e) => self@.asset_of(token_id@) == Err::<AssetView, EscrowError>(e),
            },
    {
        match self.find_asset(token_id) {
            Some(i) => Ok(self.assets[i].1.duplicate()),
            None => Err(EscrowError::NotFound),
        }
    }

    /// Every listing with its token id, in the order of listing.
    pub fn view_assets(&self) -> (r: Vec<(String, Asset)>)
        ensures
            assets_view(r@) == self@.assets,
    {
        let mut r: Vec<(String, Asset)> = Vec::new();
        let mut i: usize = 0;
        while i < self.assets.len()
            invariant
                i <= self.assets@.len(),
                assets_view(r@) == assets_view(self.assets@).subrange(0, i as int),
            decreases self.assets.len() - i,
        {
            let ghost prev = r@;
            let entry = (self.assets[i].0.clone(), self.assets[i].1.duplicate());
            assert((entry.0@, entry.1@) == assets_view(self.assets@)[i as int]);
            r.push(entry);
            assert(r@ == prev.push(entry));
            i += 1;
            assert(assets_view(r@) =~= assets_view(prev).push((entry.0@, entry.1@)));
            assert(assets_view(r@) =~= assets_view(self.assets@).subrange(0, i as int));
        }
        assert(assets_view(self.assets@).subrange(0, i as int) =~= assets_view(self.assets@));
        r
    }

    /// Discards every account and listing and advances the patch version, so
    /// that the collections are stored afresh under a new namespace.
    pub fn reset_state(&mut self)
        requires
            old(self)@.version.2 < u32::MAX,
        ensures
            final(self)@.wf(),
            final(self)@ == old(self)@.reset(),
    {
        self.users = Vec::new();
        self.assets = Vec::new();
        self.asset_amount = 0;
        self.user_amount = 0;
        self.escrow_ver.inc();
        assert(users_view(self.users@) =~= Seq::<(Seq<char>, UserView)>::empty());
        assert(assets_view(self.assets@) =~= Seq::<(Seq<char>, AssetView)>::empty());
    }

    /// Whether no account id occurs twice in `v`.
    fn user_keys_unique(v: &Vec<(String, User)>) -> (r: bool)
        ensures
            r == keys_unique(users_view(v@)),
    {
        let mut i: usize = 0;
        while i < v.len()
            invariant
                i <= v@.len(),
                forall|a: int, b: int| 0 <= a < i && 0 <= b < v@.len() && a != b ==> v@[a].0@ != v@[b].0@,
            decreases v.len() - i,
        {
            let mut j: usize = 0;
            while j < v.len()
                invariant
                    i < v@.len(),
                    j <= v@.len(),
                    forall|a: int, b: int| 0 <= a < i && 0 <= b < v@.len() && a != b ==> v@[a].0@ != v@[b].0@,
                    forall|b: int| 0 <= b < j && b != i ==> v@[i as int].0@ != v@[b].0@,
                decreases v.len() - j,
            {
                if j != i && v[i].0 == v[j].0 {
                    assert(users_view(v@)[i as int].0 == users_view(v@)[j as int].0);
                    return false;
                }
                j += 1;
            }
            i += 1;
        }
        assert forall|a: int, b: int| 0 <= a < users_view(v@).len() && 0 <= b < users_view(v@).len() && a != b
            implies users_view(v@)[a].0 != users_view(v@)[b].0 by {
            assert(v@[a].0@ != v@[b].0@);
        }
        true
    }

    /// Whether no token id occurs twice in `v`.
    fn asset_keys_unique(v: &Vec<(String, Asset)>) -> (r: bool)
        ensures
            r == keys_unique(assets_view(v@)),
    {
        let mut i: usize = 0;
        while i < v.len()
            invariant
                i <= v@.len(),
                forall|a: int, b: int| 0 <= a < i && 0 <= b < v@.len() && a != b ==> v@[a].0@ != v@[b].0@,
            decreases v.len() - i,
        {
            let mut j: usize = 0;
            while j < v.len()
                invariant
                    i < v@.len(),
                    j <= v@.len(),
                    forall|a: int, b: int| 0 <= a < i && 0 <= b < v@.len() && a != b ==> v@[a].0@ != v@[b].0@,
                    forall|b: int| 0 <= b < j && b != i ==> v@[i as int].0@ != v@[b].0@,
                decreases v.len() - j,
            {
                if j != i && v[i].0 == v[j].0 {
                    assert(assets_view(v@)[i as int].0 == assets_view(v@)[j as int].0);
                    return false;
                }
                j += 1;
            }
            i += 1;
        }
        assert forall|a: int, b: int| 0 <= a < assets_view(v@).len() && 0 <= b < assets_view(v@).len() && a != b
            implies assets_view(v@)[a].0 != assets_view(v@)[b].0 by {
            assert(v@[a].0@ != v@[b].0@);
        }
        true
    }

    /// Rebuilds an escrow from stored records. Refused (`None`) exactly when an
    /// id occurs twice or a collection holds more records than its counter
    /// can count.
    pub fn restore(
        nft_account_id: String,
        users: Vec<(String, User)>,
        assets: Vec<(String, Asset)>,
        escrow_ver: Version,
    ) -> (r: Option<Self>)
        ensures
            r.is_some() == (keys_unique(users_view(users@)) && keys_unique(assets_view(assets@)) && users@.len()
                <= u16::MAX && assets@.len() <= u16::MAX),
            r matches Some(c) ==> c@.wf() && c@ == (ContractView {
                nft_account_id: nft_account_id@,
                users: users_view(users@),
                assets: assets_view(assets@),
                asset_amount: assets@.len() as u16,
                user_amount: users@.len() as u16,
                version: escrow_ver,
            }),
    {
        if users.len() > u16::MAX as usize || assets.len() > u16::MAX as usize {
            return None;
        }
        if !Self::user_keys_unique(&users) || !Self::asset_keys_unique(&assets) {
            return None;
        }
        let user_amount = users.len() as u16;
        let asset_amount = assets.len() as u16;
        Some(EscrowContract { nft_account_id, users, assets, asset_amount, user_amount, escrow_ver })
    }

    /// The schema version the collections are stored under.
    pub fn current_version(&self) -> (r: Version)
        ensures
            r == self@.version,
    {
        self.escrow_ver
    }

    /// The number of registered accounts.
    pub fn user_count(&self) -> (r: u16)
        ensures
            r == self@.user_amount,
    {
        self.user_amount
    }

    /// The number of listings.
    pub fn asset_count(&self) -> (r: u16)
        ensures
            r == self@.asset_amount,
    {
        self.asset_amount
    }

    /// The token registry that transfers go through.
    pub fn nft_account_id(&self) -> (r: String)
        ensures
            r@ == self@.nft_account_id,
    {
        self.nft_account_id.clone()
    }
}

} // verus!
