pub mod asset;
pub mod contract;
pub mod error;
pub mod laws;
pub mod model;
pub mod transfer;
pub mod user;
pub mod version;

pub use asset::{Asset, AssetView, StorageKey};
pub use contract::EscrowContract;
pub use error::EscrowError;
pub use model::ContractView;
pub use transfer::{NftTransfer, Payment, TransferFailure};
pub use user::{User, UserV1, VersionedUser};
pub use version::Version;
