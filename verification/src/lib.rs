pub mod account;
pub mod contract;
pub mod error;
pub mod fee;
pub mod keys;
pub mod metadata;
pub mod payout;
pub mod payouts;
pub mod registry;
pub mod royalty;
pub mod sale;
pub mod series;
pub mod storage;
pub mod table;
pub mod text;
pub mod validate;
pub mod whitelist;

pub use account::is_valid_account;
pub use contract::{CallContext, Contract, MarketDataTransactionFee};
pub use error::MarketError;
pub use fee::{to_sec, TimestampSec, TransactionFee};
pub use metadata::{NFTContractMetadata, Token, TokenMetadata, NFT_METADATA_SPEC};
pub use payout::{royalty_to_payout, split_payout, Payout};
pub use payouts::{Payouts, TokenTransfer};
pub use royalty::{check_royalty, is_within_limits, Royalty};
pub use sale::{settle, Minted, Purchase, Transfer};
pub use series::{TokenSeries, TokenSeriesJson, MAX_PRICE};
pub use storage::refund_deposit;
pub use table::{Entry, TextMap};
pub use text::{decimal, split_token_id, token_id_of, TITLE_DELIMETER, TOKEN_DELIMETER};
pub use whitelist::AccountSet;
