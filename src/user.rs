use vstd::prelude::*;

verus! {

/// Clones a list of strings, element by element.
fn clone_strings(v: &Vec<String>) -> (r: Vec<String>)
    ensures
        r@ == v@,
{
    let mut r: Vec<String> = Vec::new();
    let mut i: usize = 0;
    while i < v.len()
        invariant
            i <= v.len(),
            r@ == v@.subrange(0, i as int),
        decreases v.len() - i,
    {
        r.push(v[i].clone());
        i += 1;
        assert(r@ =~= v@.subrange(0, i as int));
    }
    assert(r@ =~= v@);
    r
}

/// What an account record holds, as mathematical values.
pub struct UserView {
    pub balance: u128,
    pub asset_ids: Seq<Seq<char>>,
}

/// The contents of each string of a list.
pub open spec fn strings_view(v: Seq<String>) -> Seq<Seq<char>> {
    v.map_values(|s: String| s@)
}

/// A registered account of the ledger: its custodial balance and the token ids
/// recorded against it.
#[derive(Debug)]
pub struct User {
    pub balance: u128,
    pub asset_ids: Vec<String>,
}

impl View for User {
    type V = UserView;

    open spec fn view(&self) -> UserView {
        UserView { balance: self.balance, asset_ids: strings_view(self.asset_ids@) }
    }
}

impl User {
    /// A freshly registered account holding `balance` and no token ids.
    pub fn new(balance: u128) -> (r: User)
        ensures
            r@ == (UserView { balance, asset_ids: Seq::empty() }),
    {
        let r = User { balance, asset_ids: Vec::new() };
        assert(strings_view(r.asset_ids@) =~= Seq::<Seq<char>>::empty());
        r
    }

    /// A copy of this account, field for field.
    pub fn duplicate(&self) -> (r: User)
        ensures
            r@ == self@,
    {
        User { balance: self.balance, asset_ids: clone_strings(&self.asset_ids) }
    }
}

/// The first stored shape of an account record.
#[derive(Debug)]
pub struct UserV1 {
    pub account_id: String,
    pub balance: u128,
    pub asset_ids: Vec<String>,
}

/// An account record tagged with the schema shape it was stored under.
#[derive(Debug)]
pub enum VersionedUser {
    V1(UserV1),
}

impl From<VersionedUser> for UserV1 {
    /// Upgrades a stored record to the latest shape.
    fn from(user: VersionedUser) -> (r: UserV1) {
        match user {
            VersionedUser::V1(u) => u,
        }
    }
}

impl vstd::std_specs::convert::FromSpecImpl<VersionedUser> for UserV1 {
    open spec fn obeys_from_spec() -> bool {
        true
    }

    open spec fn from_spec(user: VersionedUser) -> UserV1 {
        match user {
            VersionedUser::V1(u) => u,
        }
    }
}

} // verus!
