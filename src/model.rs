use vstd::prelude::*;

use crate::asset::AssetView;
use crate::error::EscrowError;
use crate::user::UserView;
use crate::version::Version;

verus! {

/// Whether `id` is a key of the keyed list `s`.
pub open spec fn has_key<V>(s: Seq<(Seq<char>, V)>, id: Seq<char>) -> bool {
    exists|i: int| 0 <= i < s.len() && #[trigger] s[i].0 == id
}

/// Where `id` stands in the keyed list `s`, when it is a key of it.
pub open spec fn key_pos<V>(s: Seq<(Seq<char>, V)>, id: Seq<char>) -> int {
    choose|i: int| 0 <= i < s.len() && #[trigger] s[i].0 == id
}

/// No key occurs twice in the keyed list `s`.
pub open spec fn keys_unique<V>(s: Seq<(Seq<char>, V)>) -> bool {
    forall|i: int, j: int| 0 <= i < s.len() && 0 <= j < s.len() && i != j ==> s[i].0 != s[j].0
}

/// With unique keys, the entry holding `id` is the one at `i`.
pub proof fn lemma_key_pos<V>(s: Seq<(Seq<char>, V)>, id: Seq<char>, i: int)
    requires
        keys_unique(s),
        0 <= i < s.len(),
        s[i].0 == id,
    ensures
        has_key(s, id),
        key_pos(s, id) == i,
{
    assert(has_key(s, id));
    let j = key_pos(s, id);
    assert(0 <= j < s.len() && s[j].0 == id);
}

/// The escrow's whole state as mathematical values: the accounts and the
/// listings in the order they were added, the two running counters and the
/// schema version.
pub struct ContractView {
    pub nft_account_id: Seq<char>,
    pub users: Seq<(Seq<char>, UserView)>,
    pub assets: Seq<(Seq<char>, AssetView)>,
    pub asset_amount: u16,
    pub user_amount: u16,
    pub version: Version,
}

impl ContractView {
    /// Keys are unique and each counter equals the number of its records.
    pub open spec fn wf(self) -> bool {
        &&& keys_unique(self.users)
        &&& keys_unique(self.assets)
        &&& self.user_amount == self.users.len()
        &&& self.asset_amount == self.assets.len()
    }

    pub open spec fn has_user(self, id: Seq<char>) -> bool {
        has_key(self.users, id)
    }

    /// The account of `id`; meaningful when `has_user(id)`.
    pub open spec fn user(self, id: Seq<char>) -> UserView {
        self.users[key_pos(self.users, id)].1
    }

    pub open spec fn has_asset(self, token_id: Seq<char>) -> bool {
        has_key(self.assets, token_id)
    }

    /// The listing of `token_id`; meaningful when `has_asset(token_id)`.
    pub open spec fn asset(self, token_id: Seq<char>) -> AssetView {
        self.assets[key_pos(self.assets, token_id)].1
    }

    /// Registration of `id` with `deposit` as its opening balance.
    pub open spec fn register(self, id: Seq<char>, deposit: u128) -> (Self, Result<(), EscrowError>) {
        if self.has_user(id) {
            (self, Err(EscrowError::AlreadyExists))
        } else {
            (
                ContractView {
                    users: self.users.push((id, UserView { balance: deposit, asset_ids: Seq::empty() })),
                    user_amount: (self.user_amount + 1) as u16,
                    ..self
                },
                Ok(()),
            )
        }
    }

    /// A deposit of `amount` onto the account of `id`.
    pub open spec fn deposit(self, id: Seq<char>, amount: u128) -> (Self, Result<(), EscrowError>) {
        if amount == 0 {
            (self, Err(EscrowError::InvalidAmount))
        } else if !self.has_user(id) {
            (self, Err(EscrowError::NotRegistered))
        } else {
            let u = self.user(id);
            (
                ContractView {
                    users: self.users.update(
                        key_pos(self.users, id),
                        (id, UserView { balance: (u.balance + amount) as u128, ..u }),
                    ),
                    ..self
                },
                Ok(()),
            )
        }
    }

    /// Withdrawal of the whole balance of `id`; on success the amount paid out.
    pub open spec fn withdraw_all(self, id: Seq<char>) -> (Self, Result<u128, EscrowError>) {
        if !self.has_user(id) {
            (self, Err(EscrowError::NotRegistered))
        } else if self.user(id).balance == 0 {
            (self, Err(EscrowError::InsufficientFunds))
        } else {
            let u = self.user(id);
            (
                ContractView {
                    users: self.users.update(
                        key_pos(self.users, id),
                        (id, UserView { balance: 0, ..u }),
                    ),
                    ..self
                },
                Ok(u.balance),
            )
        }
    }

    /// The balance of `id`.
    pub open spec fn balance_of(self, id: Seq<char>) -> Result<u128, EscrowError> {
        if self.has_user(id) {
            Ok(self.user(id).balance)
        } else {
            Err(EscrowError::NotRegistered)
        }
    }

    /// The listing that `lister` places for `token_id` at `price` at time `now`.
    pub open spec fn new_listing(lister: Seq<char>, price: u128, now: u64) -> AssetView {
        AssetView {
            price,
            init_time: now,
            last_time: now,
            last_owner: lister,
            last_user: lister,
            active: true,
        }
    }

    /// Listing of `token_id` by `lister` at `price`, at time `now`.
    pub open spec fn list_asset(self, lister: Seq<char>, token_id: Seq<char>, price: u128, now: u64) -> (
        Self,
        Result<(), EscrowError>,
    ) {
        if self.has_asset(token_id) {
            (self, Err(EscrowError::AlreadyListed))
        } else {
            (
                ContractView {
                    assets: self.assets.push((token_id, Self::new_listing(lister, price, now))),
                    asset_amount: (self.asset_amount + 1) as u16,
                    ..self
                },
                Ok(()),
            )
        }
    }

    /// Purchase of `token_id` by `buyer` with `payment` attached, at time `now`;
    /// on success the sold listing as it stood before.
    pub open spec fn buy_asset(self, buyer: Seq<char>, token_id: Seq<char>, payment: u128, now: u64) -> (
        Self,
        Result<AssetView, EscrowError>,
    ) {
        if !self.has_asset(token_id) {
            (self, Err(EscrowError::NotListed))
        } else if !self.asset(token_id).active {
            (self, Err(EscrowError::NotActive))
        } else if payment < self.asset(token_id).price {
            (self, Err(EscrowError::InsufficientFunds))
        } else {
            let a = self.asset(token_id);
            (
                ContractView {
                    assets: self.assets.update(
                        key_pos(self.assets, token_id),
                        (token_id, AssetView { last_user: buyer, last_time: now, active: false, ..a }),
                    ),
                    ..self
                },
                Ok(a),
            )
        }
    }

    /// The listing of `token_id`.
    pub open spec fn asset_of(self, token_id: Seq<char>) -> Result<AssetView, EscrowError> {
        if self.has_asset(token_id) {
            Ok(self.asset(token_id))
        } else {
            Err(EscrowError::NotFound)
        }
    }

    /// Wipes every account and listing and advances the patch version.
    pub open spec fn reset(self) -> Self {
        ContractView {
            users: Seq::empty(),
            assets: Seq::empty(),
            asset_amount: 0,
            user_amount: 0,
            version: Version(self.version.0, self.version.1, (self.version.2 + 1) as u32),
            ..self
        }
    }
}

} // verus!
