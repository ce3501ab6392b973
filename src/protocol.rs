//! The messages exchanged between miners and the validator, the wire form of
//! blocks (hashes as hexadecimal text), and the length-prefixed framing.
use vstd::prelude::*;
use crate::block::{be_bytes, push_all, push_reversed, Block, Output, Transaction};
use crate::bytes::{le_bytes, le_int, lemma_le_round_trip, pow256, u32_bytes};
use crate::digest::{hex_bytes, hex_decode, hex_encode, hex_lower, is_hex_text, lemma_hex_round_trip};
use crate::text::join_text;
use crate::validator::{RoundInfo, ValidationResult};

verus! {

/// Requests from a miner.
#[derive(Debug, Clone)]
pub enum MinerMessage {
    GetRoundInfo { miner_id: String },
    SubmitBlock { miner_id: String, block: BlockData },
    CheckLockout { miner_id: String },
    GetBlockchainInfo,
}

/// Responses from the validator.
#[derive(Debug, Clone)]
pub enum ValidatorMessage {
    RoundInfo(RoundInfoData),
    BlockResult { result: BlockResultType, message: String },
    LockoutStatus { is_locked: bool, seconds_remaining: u64 },
    BlockchainInfo { block_count: usize, difficulty: String },
    Error { message: String },
}

/// A block as it travels: hashes as hexadecimal text.
#[derive(Debug, Clone)]
pub struct BlockData {
    pub index: u32,
    pub timestamp: u128,
    pub hash: String,
    pub prev_block_hash: String,
    pub nonce: u64,
    pub transactions: Vec<TransactionData>,
}

/// A transaction as it travels.
#[derive(Debug, Clone)]
pub struct TransactionData {
    pub inputs: Vec<OutputData>,
    pub outputs: Vec<OutputData>,
}

/// An output as it travels; the amount is the bit pattern of its double.
#[derive(Debug, Clone)]
pub struct OutputData {
    pub to_addr: String,
    pub value_bits: u64,
    pub timestamp: u128,
}

/// The round snapshot as it travels, with the difficulty as "0x" and
/// uppercase hexadecimal digits.
#[derive(Debug, Clone)]
pub struct RoundInfoData {
    pub round_start: u128,
    pub tonce: Option<u8>,
    pub challenge_seconds_remaining: u64,
    pub attempted_miners: usize,
    pub active_lockouts: usize,
    pub difficulty: String,
}

/// The kind of a verdict, without its details.
#[derive(Debug, Clone, Copy, PartialEq, Eq, Structural)]
pub enum BlockResultType {
    Accepted,
    RejectedInvalidHash,
    RejectedInvalidTimestamp,
    RejectedTonceChallenge,
    RejectedMinerInLockout,
    RejectedMinerAlreadyAttempted,
    RejectedBlockchainValidation,
}

/// The kind of a verdict.
pub open spec fn kind_of(r: ValidationResult) -> BlockResultType {
    match r {
        ValidationResult::Accepted => BlockResultType::Accepted,
        ValidationResult::RejectedInvalidHash => BlockResultType::RejectedInvalidHash,
        ValidationResult::RejectedInvalidTimestamp => BlockResultType::RejectedInvalidTimestamp,
        ValidationResult::RejectedTonceChallenge => BlockResultType::RejectedTonceChallenge,
        ValidationResult::RejectedMinerInLockout => BlockResultType::RejectedMinerInLockout,
        ValidationResult::RejectedMinerAlreadyAttempted => BlockResultType::RejectedMinerAlreadyAttempted,
        ValidationResult::RejectedBlockchainValidation(_) => BlockResultType::RejectedBlockchainValidation,
    }
}

impl BlockResultType {
    /// The kind of `result`.
    pub fn from_result(result: &ValidationResult) -> (r: BlockResultType)
        ensures
            r == kind_of(*result),
    {
        match result {
            ValidationResult::Accepted => BlockResultType::Accepted,
            ValidationResult::RejectedInvalidHash => BlockResultType::RejectedInvalidHash,
            ValidationResult::RejectedInvalidTimestamp => BlockResultType::RejectedInvalidTimestamp,
            ValidationResult::RejectedTonceChallenge => BlockResultType::RejectedTonceChallenge,
            ValidationResult::RejectedMinerInLockout => BlockResultType::RejectedMinerInLockout,
            ValidationResult::RejectedMinerAlreadyAttempted => BlockResultType::RejectedMinerAlreadyAttempted,
            ValidationResult::RejectedBlockchainValidation(_) => BlockResultType::RejectedBlockchainValidation,
        }
    }
}

impl<'a> From<&'a ValidationResult> for BlockResultType {
    fn from(result: &'a ValidationResult) -> (r: BlockResultType) {
        BlockResultType::from_result(result)
    }
}

impl<'a> vstd::std_specs::convert::FromSpecImpl<&'a ValidationResult> for BlockResultType {
    open spec fn obeys_from_spec() -> bool {
        true
    }

    open spec fn from_spec(v: &'a ValidationResult) -> BlockResultType {
        kind_of(*v)
    }
}

impl RoundInfoData {
    /// The wire form of a round snapshot, with the chain's difficulty.
    pub fn from_round_info(info: &RoundInfo, difficulty: u128) -> (r: Self)
        ensures
            r.round_start == info.round_start,
            r.tonce == info.tonce,
            r.challenge_seconds_remaining == info.challenge_seconds_remaining,
            r.attempted_miners == info.attempted_miners,
            r.active_lockouts == info.active_lockouts,
            r.difficulty@ == seq!['0', 'x'] + crate::text::digits(difficulty as nat, 16),
    {
        RoundInfoData {
            round_start: info.round_start,
            tonce: info.tonce,
            challenge_seconds_remaining: info.challenge_seconds_remaining,
            attempted_miners: info.attempted_miners,
            active_lockouts: info.active_lockouts,
            difficulty: crate::text::upper_hex_text(difficulty),
        }
    }
}

/// Whether `s` begins with `p`.
pub open spec fn has_prefix(s: Seq<char>, p: Seq<char>) -> bool {
    p.len() <= s.len() && s.subrange(0, p.len() as int) == p
}

/// `a` followed by anything begins with `a`.
pub proof fn lemma_concat_prefix(a: Seq<char>, b: Seq<char>)
    ensures
        has_prefix(a + b, a),
{
    assert((a + b).subrange(0, a.len() as int) =~= a);
}

/// Putting the same text in front keeps a prefix.
pub proof fn lemma_prefix_extend(a: Seq<char>, e: Seq<char>, p: Seq<char>)
    ensures
        has_prefix(e, p) ==> has_prefix(a + e, a + p),
{
    if has_prefix(e, p) {
        assert((a + e).subrange(0, (a + p).len() as int) =~= a + p);
    }
}

/// `d` carries the same fields as `o`.
pub open spec fn same_output(d: OutputData, o: Output) -> bool {
    d.to_addr@ == o.to_addr@ && d.value_bits == o.value_bits && d.timestamp == o.timestamp
}

/// `d` carries, in order, the same outputs as `o`.
pub open spec fn same_outputs(d: Seq<OutputData>, o: Seq<Output>) -> bool {
    d.len() == o.len() && forall|i: int| 0 <= i < d.len() ==> same_output(#[trigger] d[i], o[i])
}

/// `d` carries the same transaction as `t`.
pub open spec fn same_transaction(d: TransactionData, t: Transaction) -> bool {
    same_outputs(d.inputs@, t.inputs@) && same_outputs(d.outputs@, t.outputs@)
}

/// `d` carries, in order, the same transactions as `t`.
pub open spec fn same_transactions(d: Seq<TransactionData>, t: Seq<Transaction>) -> bool {
    d.len() == t.len() && forall|i: int| 0 <= i < d.len() ==> same_transaction(#[trigger] d[i], t[i])
}

/// `d` is a wire form of `b`: the same fields, with each hash given as
/// hexadecimal text of its bytes.
pub open spec fn describes(d: BlockData, b: Block) -> bool {
    &&& d.index == b.index
    &&& d.timestamp == b.timestamp
    &&& d.nonce == b.nonce
    &&& is_hex_text(d.hash@) && hex_bytes(d.hash@) == b.hash@
    &&& is_hex_text(d.prev_block_hash@) && hex_bytes(d.prev_block_hash@) == b.prev_block_hash@
    &&& same_transactions(d.transactions@, b.transactions@)
}

impl OutputData {
    /// The wire form of an output.
    pub fn from_output(output: &Output) -> (r: Self)
        ensures
            same_output(r, *output),
    {
        OutputData {
            to_addr: output.to_addr.clone(),
            value_bits: output.value_bits,
            timestamp: output.timestamp,
        }
    }

    /// The output this wire form carries.
    pub fn to_output(&self) -> (r: Output)
        ensures
            same_output(*self, r),
    {
        Output { to_addr: self.to_addr.clone(), value_bits: self.value_bits, timestamp: self.timestamp }
    }
}

fn outputs_to_data(s: &Vec<Output>) -> (r: Vec<OutputData>)
    ensures
        same_outputs(r@, s@),
{
    let mut r: Vec<OutputData> = Vec::new();
    let mut i: usize = 0;
    while i < s.len()
        invariant
            i <= s@.len(),
            r@.len() == i,
            forall|j: int| 0 <= j < i ==> same_output(#[trigger] r@[j], s@[j]),
        decreases s@.len() - i,
    {
        r.push(OutputData::from_output(&s[i]));
        i = i + 1;
    }
    r
}

fn data_to_outputs(s: &Vec<OutputData>) -> (r: Vec<Output>)
    ensures
        same_outputs(s@, r@),
{
    let mut r: Vec<Output> = Vec::new();
    let mut i: usize = 0;
    while i < s.len()
        invariant
            i <= s@.len(),
            r@.len() == i,
            forall|j: int| 0 <= j < i ==> same_output(#[trigger] s@[j], r@[j]),
        decreases s@.len() - i,
    {
        r.push(s[i].to_output());
        i = i + 1;
    }
    r
}

impl TransactionData {
    /// The wire form of a transaction.
    pub fn from_transaction(tx: &Transaction) -> (r: Self)
        ensures
            same_transaction(r, *tx),
    {
        TransactionData { inputs: outputs_to_data(&tx.inputs), outputs: outputs_to_data(&tx.outputs) }
    }

    /// The transaction this wire form carries.
    pub fn to_transaction(&self) -> (r: Transaction)
        ensures
            same_transaction(*self, r),
    {
        Transaction { inputs: data_to_outputs(&self.inputs), outputs: data_to_outputs(&self.outputs) }
    }
}

impl BlockData {
    /// The wire form of a block: each hash as lowercase hexadecimal text.
    pub fn from_block(block: &Block) -> (r: Self)
        ensures
            r.hash@ == hex_lower(block.hash@),
            r.prev_block_hash@ == hex_lower(block.prev_block_hash@),
            describes(r, *block),
    {
        let mut transactions: Vec<TransactionData> = Vec::new();
        let mut i: usize = 0;
        while i < block.transactions.len()
            invariant
                i <= block.transactions@.len(),
                transactions@.len() == i,
                forall|j: int|
                    0 <= j < i ==> same_transaction(#[trigger] transactions@[j], block.transactions@[j]),
            decreases block.transactions@.len() - i,
        {
            transactions.push(TransactionData::from_transaction(&block.transactions[i]));
            i = i + 1;
        }
        proof {
            lemma_hex_round_trip(block.hash@);
            lemma_hex_round_trip(block.prev_block_hash@);
        }
        BlockData {
            index: block.index,
            timestamp: block.timestamp,
            hash: hex_encode(block.hash.as_slice()),
            prev_block_hash: hex_encode(block.prev_block_hash.as_slice()),
            nonce: block.nonce,
            transactions,
        }
    }

    /// The block this wire form carries; fails when a hash is not hexadecimal
    /// text, with the decoder's message.
    pub fn to_block(&self) -> (r: Result<Block, String>)
        ensures
            r is Ok <==> is_hex_text(self.hash@) && is_hex_text(self.prev_block_hash@),
            r matches Ok(b) ==> describes(*self, b),
            !is_hex_text(self.hash@) ==> (r matches Err(e) && has_prefix(e@, "Invalid hash hex: "@)),
            is_hex_text(self.hash@) && !is_hex_text(self.prev_block_hash@) ==> (r matches Err(e)
                && has_prefix(e@, "Invalid prev_block_hash hex: "@)),
    {
        let hash = match hex_decode(self.hash.as_str()) {
            Ok(h) => h,
            Err(e) => {
                let m = join_text("Invalid hash hex: ", e.as_str());
                proof {
                    lemma_concat_prefix("Invalid hash hex: "@, e@);
                }
                return Err(m);
            },
        };
        let prev_block_hash = match hex_decode(self.prev_block_hash.as_str()) {
            Ok(h) => h,
            Err(e) => {
                let m = join_text("Invalid prev_block_hash hex: ", e.as_str());
                proof {
                    lemma_concat_prefix("Invalid prev_block_hash hex: "@, e@);
                }
                return Err(m);
            },
        };
        let mut transactions: Vec<Transaction> = Vec::new();
        let mut i: usize = 0;
        while i < self.transactions.len()
            invariant
                i <= self.transactions@.len(),
                transactions@.len() == i,
                forall|j: int|
                    0 <= j < i ==> same_transaction(#[trigger] self.transactions@[j], transactions@[j]),
            decreases self.transactions@.len() - i,
        {
            transactions.push(self.transactions[i].to_transaction());
            i = i + 1;
        }
        Ok(
            Block {
                index: self.index,
                timestamp: self.timestamp,
                hash,
                prev_block_hash,
                nonce: self.nonce,
                transactions,
            },
        )
    }
}

/// Two blocks that one wire form describes agree on every field.
pub proof fn lemma_describes_unique(d: BlockData, a: Block, b: Block)
    requires
        describes(d, a),
        describes(d, b),
    ensures
        a.index == b.index,
        a.timestamp == b.timestamp,
        a.nonce == b.nonce,
        a.hash@ == b.hash@,
        a.prev_block_hash@ == b.prev_block_hash@,
        a.transactions@.len() == b.transactions@.len(),
        forall|i: int, j: int|
            0 <= i < a.transactions@.len() && 0 <= j < a.transactions@[i].outputs@.len() ==> {
                let x = #[trigger] a.transactions@[i].outputs@[j];
                let y = b.transactions@[i].outputs@[j];
                x.to_addr@ == y.to_addr@ && x.value_bits == y.value_bits && x.timestamp == y.timestamp
            },
        forall|i: int, j: int|
            0 <= i < a.transactions@.len() && 0 <= j < a.transactions@[i].inputs@.len() ==> {
                let x = #[trigger] a.transactions@[i].inputs@[j];
                let y = b.transactions@[i].inputs@[j];
                x.to_addr@ == y.to_addr@ && x.value_bits == y.value_bits && x.timestamp == y.timestamp
            },
{
    assert forall|i: int, j: int|
        0 <= i < a.transactions@.len() && 0 <= j < a.transactions@[i].outputs@.len() implies {
            let x = #[trigger] a.transactions@[i].outputs@[j];
            let y = b.transactions@[i].outputs@[j];
            x.to_addr@ == y.to_addr@ && x.value_bits == y.value_bits && x.timestamp == y.timestamp
        } by {
        assert(same_transaction(d.transactions@[i], a.transactions@[i]));
        assert(same_transaction(d.transactions@[i], b.transactions@[i]));
        assert(same_output(d.transactions@[i].outputs@[j], a.transactions@[i].outputs@[j]));
        assert(same_output(d.transactions@[i].outputs@[j], b.transactions@[i].outputs@[j]));
    }
    assert forall|i: int, j: int|
        0 <= i < a.transactions@.len() && 0 <= j < a.transactions@[i].inputs@.len() implies {
            let x = #[trigger] a.transactions@[i].inputs@[j];
            let y = b.transactions@[i].inputs@[j];
            x.to_addr@ == y.to_addr@ && x.value_bits == y.value_bits && x.timestamp == y.timestamp
        } by {
        assert(same_transaction(d.transactions@[i], a.transactions@[i]));
        assert(same_transaction(d.transactions@[i], b.transactions@[i]));
        assert(same_output(d.transactions@[i].inputs@[j], a.transactions@[i].inputs@[j]));
        assert(same_output(d.transactions@[i].inputs@[j], b.transactions@[i].inputs@[j]));
    }
}

/// The wire form of any block describes it, and so decodes to a block equal to
/// it in every field: hashes included, byte for byte.
pub proof fn lemma_block_data_round_trip(b: Block)
    ensures
        is_hex_text(hex_lower(b.hash@)) && hex_bytes(hex_lower(b.hash@)) == b.hash@,
        is_hex_text(hex_lower(b.prev_block_hash@)) && hex_bytes(hex_lower(b.prev_block_hash@))
            == b.prev_block_hash@,
{
    lemma_hex_round_trip(b.hash@);
    lemma_hex_round_trip(b.prev_block_hash@);
}

/// The largest payload a connection accepts, in bytes.
pub const MAX_FRAME_LEN: usize = 1_048_576;

/// Why a frame cannot be read.
#[derive(Debug, Clone, Copy, PartialEq, Eq, Structural)]
pub enum FrameError {
    /// Fewer bytes than the header or than the length it declares.
    Truncated,
    /// The declared length is over the receive buffer.
    TooLarge,
}

/// The big-endian number whose bytes are `s`.
pub open spec fn be_int(s: Seq<u8>) -> nat {
    le_int(s.reverse())
}

/// A payload with its four-byte big-endian length in front.
pub open spec fn frame(payload: Seq<u8>) -> Seq<u8> {
    be_bytes(payload.len(), 4) + payload
}

/// What reading a frame of `b`, into a buffer of `capacity` bytes, gives.
pub open spec fn unframe(b: Seq<u8>, capacity: nat) -> Result<Seq<u8>, FrameError> {
    if b.len() < 4 {
        Err(FrameError::Truncated)
    } else if be_int(b.subrange(0, 4)) > capacity {
        Err(FrameError::TooLarge)
    } else if b.len() < 4 + be_int(b.subrange(0, 4)) {
        Err(FrameError::Truncated)
    } else {
        Ok(b.subrange(4, 4 + be_int(b.subrange(0, 4)) as int))
    }
}

/// The payload length that a four-byte header declares.
pub fn frame_length(header: &[u8]) -> (r: u32)
    requires
        header@.len() >= 4,
    ensures
        r == be_int(header@.subrange(0, 4)),
{
    let r = (header[0] as u32) * 16777216 + (header[1] as u32) * 65536 + (header[2] as u32) * 256
        + (header[3] as u32);
    proof {
        let s = header@.subrange(0, 4).reverse();
        reveal_with_fuel(le_int, 5);
        assert(s.subrange(1, 4).subrange(1, 3) =~= seq![header@[1], header@[0]]);
        assert(s.subrange(1, 4) =~= seq![header@[2], header@[1], header@[0]]);
        assert(s =~= seq![header@[3], header@[2], header@[1], header@[0]]);
        assert(s.subrange(1, 4).subrange(1, 3).subrange(1, 2) =~= seq![header@[0]]);
        assert(seq![header@[0]].subrange(1, 1).len() == 0);
    }
    r
}

/// Puts a payload's length in front of it.
pub fn encode_frame(payload: &Vec<u8>) -> (r: Vec<u8>)
    requires
        payload@.len() <= u32::MAX,
    ensures
        r@ == frame(payload@),
{
    let n = payload.len() as u32;
    let len_bytes = u32_bytes(&n);
    let mut out: Vec<u8> = Vec::new();
    push_reversed(&mut out, len_bytes.as_slice());
    push_all(&mut out, payload.as_slice());
    out
}

/// Reads a frame from the front of `bytes` into a buffer of `capacity` bytes.
pub fn decode_frame(bytes: &Vec<u8>, capacity: usize) -> (r: Result<Vec<u8>, FrameError>)
    ensures
        r matches Ok(p) ==> unframe(bytes@, capacity as nat) == Ok::<Seq<u8>, FrameError>(p@),
        r matches Err(e) ==> unframe(bytes@, capacity as nat) == Err::<Seq<u8>, FrameError>(e),
{
    if bytes.len() < 4 {
        return Err(FrameError::Truncated);
    }
    let n = frame_length(bytes.as_slice()) as usize;
    if n > capacity {
        return Err(FrameError::TooLarge);
    }
    if bytes.len() - 4 < n {
        return Err(FrameError::Truncated);
    }
    let mut out: Vec<u8> = Vec::new();
    let end = 4 + n;
    let mut i: usize = 4;
    while i < end
        invariant
            4 <= i <= end,
            end == 4 + n,
            end <= bytes@.len(),
            out@ == bytes@.subrange(4, i as int),
        decreases end - i,
    {
        out.push(bytes[i]);
        i = i + 1;
        assert(bytes@.subrange(4, i as int) =~= bytes@.subrange(4, i - 1 as int).push(bytes@[i - 1]));
    }
    Ok(out)
}

/// Reading a frame that was written for a payload gives that payload back,
/// whenever the payload fits the buffer.
pub proof fn lemma_frame_round_trip(payload: Seq<u8>, capacity: nat)
    requires
        payload.len() <= u32::MAX,
        payload.len() <= capacity,
    ensures
        unframe(frame(payload), capacity) == Ok::<Seq<u8>, FrameError>(payload),
{
    let f = frame(payload);
    let n = payload.len();
    reveal_with_fuel(pow256, 5);
    lemma_le_round_trip(n, 4);
    assert(f.subrange(0, 4) =~= be_bytes(n, 4));
    assert(be_bytes(n, 4).reverse() =~= le_bytes(n, 4));
    assert(f.subrange(4, 4 + n as int) =~= payload);
}

} // verus!
