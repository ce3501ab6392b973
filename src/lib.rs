//! A single-validator "proof of time" ledger: timestamp challenges, miner
//! lockouts, the validator's round state machine and its wire protocol.
pub mod block;
pub mod blockchain;
pub mod bytes;
pub mod digest;
pub mod leap_seconds;
pub mod miner;
pub mod protocol;
pub mod server;
pub mod time_sync;
pub mod tonce;
pub mod text;
pub mod validator;

pub use crate::bytes::{difficulty_bytes_as_u128, u128_bytes, u32_bytes, u64_bytes};
pub use crate::block::{check_blockhash, Block, Hashable, Output, Transaction};
pub use crate::blockchain::{BlockValidationErr, Blockchain};
pub use crate::tonce::{find_valid_timestamp, TonceChallenge};
pub use crate::time_sync::{TimeSync, TrustedTime};
pub use crate::validator::{now, MinerSession, RoundInfo, ValidationResult, Validator};
pub use crate::leap_seconds::{
    get_leap_seconds, get_tai_offset, is_near_leap_second, now_tai_millis, tai_to_utc_millis,
    utc_to_tai_millis, validate_time_ordering,
};
pub use crate::miner::{MinerAction, MinerClient, MinerEvent, MinerState};
pub use crate::protocol::{
    BlockData, BlockResultType, MinerMessage, OutputData, RoundInfoData, TransactionData,
    ValidatorMessage,
};
pub use crate::server::process_message;
