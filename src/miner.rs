//! The miner's side: what to ask, how to build a candidate block for the
//! round, and what to do after each answer. The network side performs the
//! actions and reports back what happened.
use vstd::prelude::*;
use crate::block::{
    be_bytes, block_bytes, block_digest, meets_difficulty, nonce_digest, output_bytes, outputs_bytes,
    transaction_bytes, transactions_bytes, Block, Output, Transaction,
};
use crate::bytes::le_bytes;
use crate::digest::{hex_lower, sha256_of};
use crate::protocol::{BlockData, BlockResultType, MinerMessage, RoundInfoData, ValidatorMessage};
use crate::tonce::{find_valid_timestamp, passes_challenge};

verus! {

/// How many timestamps a miner tries when looking for one that passes the challenge.
pub const TIMESTAMP_ATTEMPTS: u32 = 100_000;

/// The bit pattern of the double 2.0, the reward of a coinbase transaction.
pub const COINBASE_REWARD_BITS: u64 = 0x4000_0000_0000_0000;

/// How long to wait after a rejection or a failed exchange, in seconds.
pub const RETRY_SECONDS: u64 = 5;

/// A miner and the validator it talks to.
#[derive(Debug, Clone)]
pub struct MinerClient {
    pub miner_id: String,
    pub validator_address: String,
}

/// What the miner loop does next.
#[derive(Debug, Clone, Copy, PartialEq, Eq, Structural)]
pub enum MinerAction {
    /// Ask for the lockout status.
    CheckLockout,
    /// Build, mine and submit a block.
    Mine,
    /// Wait this many seconds, then check the lockout again.
    Sleep { seconds: u64 },
}

/// What happened after the last action.
#[derive(Debug, Clone)]
pub enum MinerEvent {
    /// The validator's answer to a lockout check.
    LockoutStatus { is_locked: bool, seconds_remaining: u64 },
    /// The validator's verdict on a submitted block, with that block's hash.
    BlockResult { result: BlockResultType, block_hash: Vec<u8> },
    /// The validator answered a submission with something other than a verdict.
    UnexpectedResponse,
    /// The exchange failed.
    Failed,
}

/// Where the miner's chain stands: the next index and the previous hash.
#[derive(Debug, Clone)]
pub struct MinerState {
    pub prev_hash: Vec<u8>,
    pub index: u32,
}

/// The bytes of a coinbase output paying 2.0 to `reward` at `timestamp`.
pub open spec fn coinbase_output_bytes(reward: Seq<char>, timestamp: u128) -> Seq<u8> {
    vstd::utf8::encode_utf8(reward) + be_bytes(COINBASE_REWARD_BITS as nat, 8) + be_bytes(
        timestamp as nat,
        16,
    )
}

/// The digest of a block whose only transaction is a coinbase paying
/// `reward` at the block's timestamp, with the given index, previous hash and nonce.
pub open spec fn candidate_digest(
    index: u32,
    timestamp: u128,
    prev: Seq<u8>,
    reward: Seq<char>,
    nonce: u64,
) -> Seq<u8> {
    sha256_of(
        le_bytes(index as nat, 4) + le_bytes(timestamp as nat, 16) + prev + le_bytes(nonce as nat, 8)
            + coinbase_output_bytes(reward, timestamp),
    )
}

/// Whether `t` is the timestamp a miner picks for tonce `k` searching from
/// `start`: `start` itself when every timestamp passes, otherwise the first
/// of the attempts that passes.
pub open spec fn first_timestamp(k: u8, start: u128, t: u128) -> bool {
    if k <= 1 {
        t == start
    } else {
        &&& start <= t < start + TIMESTAMP_ATTEMPTS
        &&& passes_challenge(t, k)
        &&& forall|c: u128| start <= c < t ==> !passes_challenge(c, k)
    }
}

/// The digest of a block made of one coinbase transaction is `candidate_digest`.
pub proof fn lemma_coinbase_digest(b: Block, reward: Seq<char>)
    requires
        b.transactions@.len() == 1,
        b.transactions@[0].inputs@.len() == 0,
        b.transactions@[0].outputs@.len() == 1,
        b.transactions@[0].outputs@[0].to_addr@ == reward,
        b.transactions@[0].outputs@[0].value_bits == COINBASE_REWARD_BITS,
        b.transactions@[0].outputs@[0].timestamp == b.timestamp,
    ensures
        block_digest(b) == candidate_digest(b.index, b.timestamp, b.prev_block_hash@, reward, b.nonce),
{
    let txs = b.transactions@;
    let tx = txs[0];
    reveal_with_fuel(transactions_bytes, 2);
    reveal_with_fuel(outputs_bytes, 2);
    assert(txs.drop_last().len() == 0);
    assert(tx.inputs@.len() == 0);
    assert(tx.outputs@.drop_last().len() == 0);
    assert(outputs_bytes(tx.outputs@) =~= output_bytes(tx.outputs@[0]));
    assert(transaction_bytes(tx) =~= output_bytes(tx.outputs@[0]));
    assert(transactions_bytes(txs) =~= transaction_bytes(tx));
    assert(block_bytes(b) =~= le_bytes(b.index as nat, 4) + le_bytes(b.timestamp as nat, 16)
        + b.prev_block_hash@ + le_bytes(b.nonce as nat, 8) + coinbase_output_bytes(
        reward,
        b.timestamp,
    ));
}

impl MinerState {
    /// Decides the next action after `event`. A lockout means waiting it out
    /// plus a second; an accepted block moves to the next index, on top of
    /// that block; a rejection or a failure means waiting a few seconds before
    /// trying again.
    pub fn step(&mut self, event: MinerEvent) -> (r: MinerAction)
        ensures
            match event {
                MinerEvent::BlockResult { result: BlockResultType::Accepted, block_hash } =>
                    final(self).prev_hash == block_hash,
                _ => final(self).prev_hash == old(self).prev_hash,
            },
            match event {
                MinerEvent::LockoutStatus { is_locked, seconds_remaining } => final(self).index
                    == old(self).index && if is_locked {
                    r == MinerAction::Sleep {
                        seconds: if seconds_remaining == u64::MAX {
                            u64::MAX
                        } else {
                            (seconds_remaining + 1) as u64
                        },
                    }
                } else {
                    r == MinerAction::Mine
                },
                MinerEvent::BlockResult { result: BlockResultType::Accepted, .. } => r
                    == MinerAction::CheckLockout
                    && final(self).index == (if old(self).index == u32::MAX {
                    0
                } else {
                    (old(self).index + 1) as u32
                }),
                MinerEvent::BlockResult { .. } => r == MinerAction::Sleep { seconds: RETRY_SECONDS }
                    && final(self).index == old(self).index,
                MinerEvent::UnexpectedResponse => r == MinerAction::CheckLockout && final(self).index
                    == old(self).index,
                MinerEvent::Failed => r == MinerAction::Sleep { seconds: RETRY_SECONDS }
                    && final(self).index == old(self).index,
            },
    {
        match event {
            MinerEvent::LockoutStatus { is_locked, seconds_remaining } => {
                if is_locked {
                    MinerAction::Sleep { seconds: seconds_remaining.saturating_add(1) }
                } else {
                    MinerAction::Mine
                }
            },
            MinerEvent::BlockResult { result: BlockResultType::Accepted, block_hash } => {
                self.prev_hash = block_hash;
                self.index = if self.index == u32::MAX {
                    0
                } else {
                    self.index + 1
                };
                MinerAction::CheckLockout
            },
            MinerEvent::BlockResult { .. } => MinerAction::Sleep { seconds: RETRY_SECONDS },
            MinerEvent::UnexpectedResponse => MinerAction::CheckLockout,
            MinerEvent::Failed => MinerAction::Sleep { seconds: RETRY_SECONDS },
        }
    }
}

impl MinerClient {
    /// A miner named `miner_id` that talks to the validator at `validator_address`.
    pub fn new(miner_id: String, validator_address: String) -> (r: Self)
        ensures
            r.miner_id == miner_id,
            r.validator_address == validator_address,
    {
        MinerClient { miner_id, validator_address }
    }

    /// The request for the current round.
    pub fn round_info_request(&self) -> (r: MinerMessage)
        ensures
            r matches MinerMessage::GetRoundInfo { miner_id } && miner_id@ == self.miner_id@,
    {
        MinerMessage::GetRoundInfo { miner_id: self.miner_id.clone() }
    }

    /// The request for this miner's lockout status.
    pub fn lockout_request(&self) -> (r: MinerMessage)
        ensures
            r matches MinerMessage::CheckLockout { miner_id } && miner_id@ == self.miner_id@,
    {
        MinerMessage::CheckLockout { miner_id: self.miner_id.clone() }
    }

    /// Reads the answer to a round request.
    pub fn round_info_from(response: ValidatorMessage) -> (r: Result<RoundInfoData, String>)
        ensures
            match response {
                ValidatorMessage::RoundInfo(info) => r == Ok::<RoundInfoData, String>(info),
                ValidatorMessage::Error { message } => r == Err::<RoundInfoData, String>(message),
                _ => r matches Err(m) && m@ == "Unexpected response"@,
            },
    {
        match response {
            ValidatorMessage::RoundInfo(info) => Ok(info),
            ValidatorMessage::Error { message } => Err(message),
            _ => Err("Unexpected response".to_owned()),
        }
    }

    /// Reads the answer to a lockout request: whether locked, and the seconds left.
    pub fn lockout_from(response: ValidatorMessage) -> (r: Result<(bool, u64), String>)
        ensures
            match response {
                ValidatorMessage::LockoutStatus { is_locked, seconds_remaining } => r == Ok::<
                    (bool, u64),
                    String,
                >((is_locked, seconds_remaining)),
                ValidatorMessage::Error { message } => r == Err::<(bool, u64), String>(message),
                _ => r matches Err(m) && m@ == "Unexpected response"@,
            },
    {
        match response {
            ValidatorMessage::LockoutStatus { is_locked, seconds_remaining } => Ok(
                (is_locked, seconds_remaining),
            ),
            ValidatorMessage::Error { message } => Err(message),
            _ => Err("Unexpected response".to_owned()),
        }
    }

    /// The submission of a freshly mined block for the round `round`: the
    /// first timestamp from `start_time` on that passes the round's tonce, one
    /// coinbase transaction paying 2.0 to `reward_address` at that timestamp,
    /// and the first nonce that meets `difficulty`. Fails when the round has no
    /// tonce, when none of the first timestamps passes, or when no nonce meets
    /// the difficulty.
    pub fn prepare_submission(
        &self,
        round: &RoundInfoData,
        start_time: u128,
        prev_hash: Vec<u8>,
        index: u32,
        difficulty: u128,
        reward_address: &str,
    ) -> (r: Result<MinerMessage, String>)
        requires
            start_time + TIMESTAMP_ATTEMPTS <= u128::MAX,
        ensures
            round.tonce is None ==> (r matches Err(e) && e@ == "No tonce available"@),
            round.tonce matches Some(k) && (k <= 1 || exists|t: u128|
                start_time <= t < start_time + TIMESTAMP_ATTEMPTS && #[trigger] passes_challenge(
                    t,
                    k,
                )) && (forall|t: u128| #[trigger]
                first_timestamp(k, start_time, t) ==> exists|n: u64|
                    n < u64::MAX && meets_difficulty(
                        #[trigger] candidate_digest(index, t, prev_hash@, reward_address@, n),
                        difficulty,
                    )) ==> r is Ok,
            r matches Err(e) ==> e@ == "No tonce available"@ || e@ == "Failed to find valid timestamp"@
                || e@ == "Failed to mine block"@,
            r matches Ok(m) ==> (m matches MinerMessage::SubmitBlock { miner_id, block } && {
                let out = block.transactions@[0].outputs@[0];
                let digest = candidate_digest(index, block.timestamp, prev_hash@, reward_address@, block.nonce);
                &&& miner_id@ == self.miner_id@
                &&& block.index == index
                &&& round.tonce is Some
                &&& first_timestamp(round.tonce->0, start_time, block.timestamp)
                &&& block.prev_block_hash@ == hex_lower(prev_hash@)
                &&& block.transactions@.len() == 1
                &&& block.transactions@[0].inputs@.len() == 0
                &&& block.transactions@[0].outputs@.len() == 1
                &&& out.to_addr@ == reward_address@
                &&& out.value_bits == COINBASE_REWARD_BITS
                &&& out.timestamp == block.timestamp
                &&& block.hash@ == hex_lower(digest)
                &&& meets_difficulty(digest, difficulty)
                &&& forall|n: u64|
                    n < block.nonce ==> !meets_difficulty(
                        #[trigger] candidate_digest(index, block.timestamp, prev_hash@, reward_address@, n),
                        difficulty,
                    )
            }),
    {
        let tonce = match round.tonce {
            Some(t) => t,
            None => {
                return Err("No tonce available".to_owned());
            },
        };
        let timestamp = match find_valid_timestamp(tonce, start_time, TIMESTAMP_ATTEMPTS) {
            Some(t) => t,
            None => {
                return Err("Failed to find valid timestamp".to_owned());
            },
        };
        let reward = Output {
            to_addr: reward_address.to_owned(),
            value_bits: COINBASE_REWARD_BITS,
            timestamp,
        };
        let mut outputs: Vec<Output> = Vec::new();
        outputs.push(reward);
        let coinbase = Transaction { inputs: Vec::new(), outputs };
        let mut transactions: Vec<Transaction> = Vec::new();
        transactions.push(coinbase);
        let ghost prev = prev_hash@;
        let mut block = Block::new(index, timestamp, prev_hash, transactions);
        let ghost unmined = block;
        proof {
            assert(first_timestamp(tonce, start_time, timestamp));
        }
        if !block.mine(difficulty) {
            proof {
                if exists|n: u64|
                    n < u64::MAX && meets_difficulty(
                        #[trigger] candidate_digest(index, timestamp, prev, reward_address@, n),
                        difficulty,
                    ) {
                    let n = choose|n: u64|
                        n < u64::MAX && meets_difficulty(
                            #[trigger] candidate_digest(index, timestamp, prev, reward_address@, n),
                            difficulty,
                        );
                    lemma_coinbase_digest(Block { nonce: n, ..unmined }, reward_address@);
                    assert(!meets_difficulty(nonce_digest(unmined, n), difficulty));
                }
            }
            return Err("Failed to mine block".to_owned());
        }
        proof {
            lemma_coinbase_digest(block, reward_address@);
            assert forall|n: u64| n < block.nonce implies !meets_difficulty(
                #[trigger] candidate_digest(index, timestamp, prev, reward_address@, n),
                difficulty,
            ) by {
                lemma_coinbase_digest(Block { nonce: n, ..unmined }, reward_address@);
                assert(!meets_difficulty(nonce_digest(unmined, n), difficulty));
            }
        }
        let data = BlockData::from_block(&block);
        Ok(MinerMessage::SubmitBlock { miner_id: self.miner_id.clone(), block: data })
    }
}

} // verus!
