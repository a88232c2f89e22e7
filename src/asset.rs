use vstd::prelude::*;

verus! {

/// What a listing holds, as mathematical values.
pub struct AssetView {
    pub price: u128,
    pub init_time: u64,
    pub last_time: u64,
    pub last_owner: Seq<char>,
    pub last_user: Seq<char>,
    pub active: bool,
}

/// A listed token: its price, when it was listed and last acted on, who is
/// paid on the next sale (`last_owner`), who acted on it last (`last_user`),
/// and whether it can still be bought.
#[derive(Debug)]
pub struct Asset {
    pub price: u128,
    pub init_time: u64,
    pub last_time: u64,
    pub last_owner: String,
    pub last_user: String,
    pub active: bool,
}

impl View for Asset {
    type V = AssetView;

    open spec fn view(&self) -> AssetView {
        AssetView {
            price: self.price,
            init_time: self.init_time,
            last_time: self.last_time,
            last_owner: self.last_owner@,
            last_user: self.last_user@,
            active: self.active,
        }
    }
}

impl Asset {
    /// A copy of this listing, field for field.
    pub fn duplicate(&self) -> (r: Asset)
        ensures
            r@ == self@,
    {
        Asset {
            price: self.price,
            init_time: self.init_time,
            last_time: self.last_time,
            last_owner: self.last_owner.clone(),
            last_user: self.last_user.clone(),
            active: self.active,
        }
    }
}

/// Names of the top-level persisted collections.
#[derive(Clone, Copy, Debug, PartialEq, Eq, Structural)]
pub enum StorageKey {
    Users,
    Assets,
}

} // verus!
