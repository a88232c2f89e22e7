use vstd::prelude::*;

verus! {

/// One teragas, in gas units.
pub const TGAS: u64 = 1_000_000_000_000;

/// The fixed gas budget of an ownership-transfer call and of its continuation.
pub const TRANSFER_GAS: u64 = 5 * TGAS;

/// An ownership-transfer request to the external token registry, followed by
/// a continuation that classifies its outcome.
#[derive(Debug)]
pub struct NftTransfer {
    /// The registry that is asked to move the token.
    pub nft_account_id: String,
    /// The account that receives the token.
    pub receiver_id: String,
    pub token_id: String,
    pub approval_id: Option<u64>,
    pub memo: Option<String>,
    /// The payment forwarded with the request.
    pub attached_deposit: u128,
    /// Gas for the request.
    pub gas: u64,
    /// Gas for the continuation.
    pub callback_gas: u64,
}

/// A fire-and-forget payment of native currency.
#[derive(Debug)]
pub struct Payment {
    pub receiver_id: String,
    pub amount: u128,
}

/// Why the external registry refused or did not complete a transfer.
#[derive(Clone, Copy, Debug, PartialEq, Eq, Structural)]
pub enum TransferFailure {
    Failed,
}

/// `t` asks the registry `nft_account_id` to move `token_id` to `receiver_id`,
/// forwarding `attached_deposit`, with the fixed gas budget.
pub open spec fn is_transfer(
    t: NftTransfer,
    nft_account_id: Seq<char>,
    receiver_id: Seq<char>,
    token_id: Seq<char>,
    approval_id: Option<u64>,
    memo: Option<String>,
    attached_deposit: u128,
) -> bool {
    &&& t.nft_account_id@ == nft_account_id
    &&& t.receiver_id@ == receiver_id
    &&& t.token_id@ == token_id
    &&& t.approval_id == approval_id
    &&& t.memo == memo
    &&& t.attached_deposit == attached_deposit
    &&& t.gas == TRANSFER_GAS
    &&& t.callback_gas == TRANSFER_GAS
}

} // verus!
