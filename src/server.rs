//! What the validator answers to each request. The network side reads a
//! request, takes the validator's lock, calls `process_message`, and writes
//! the answer back.
use vstd::prelude::*;
use crate::block::Block;
use crate::digest::is_hex_text;
use crate::protocol::{
    has_prefix, lemma_prefix_extend, describes, kind_of, BlockResultType, MinerMessage, RoundInfoData, ValidatorMessage,
};
use crate::text::{decimal_text, digits, join_text, upper_hex_text};
use crate::tonce::{challenge_over, elapsed};
use crate::validator::{
    locked_out, lockout_left, submission_outcome, verdict, ValidationResult, Validator, LATEST_TIME,
};

verus! {

/// The message sent with a verdict. `lockout_secs` is the miner's remaining
/// lockout in seconds; `reason` is the text of a chain-extension error.
pub open spec fn verdict_message(kind: BlockResultType, lockout_secs: u64, reason: Seq<char>) -> Seq<
    char,
> {
    match kind {
        BlockResultType::Accepted => "Block accepted! You are now in 1-hour lockout."@,
        BlockResultType::RejectedMinerInLockout => "Miner in lockout. "@ + digits(
            lockout_secs as nat,
            10,
        ) + " seconds remaining."@,
        BlockResultType::RejectedTonceChallenge => "Timestamp failed tonce challenge"@,
        BlockResultType::RejectedInvalidTimestamp => "Invalid timestamp"@,
        BlockResultType::RejectedMinerAlreadyAttempted => "Already attempted this round"@,
        BlockResultType::RejectedBlockchainValidation => "Blockchain validation failed: "@ + reason,
        BlockResultType::RejectedInvalidHash => "RejectedInvalidHash"@,
    }
}

/// The chain's objection carried by a verdict, or nothing.
pub open spec fn reason_of(v: ValidationResult) -> Seq<char> {
    match v {
        ValidationResult::RejectedBlockchainValidation(e) => e@,
        _ => Seq::<char>::empty(),
    }
}

/// The text that accompanies a verdict.
fn result_message(validator: &Validator, result: &ValidationResult, miner_id: &String, current_time: u128) -> (r: String)
    ensures
        r@ == verdict_message(
            kind_of(*result),
            lockout_left(validator.sessions(), miner_id@, current_time),
            reason_of(*result),
        ),
{
    match result {
        ValidationResult::Accepted => "Block accepted! You are now in 1-hour lockout.".to_owned(),
        ValidationResult::RejectedMinerInLockout => {
            let secs = validator.get_miner_lockout_remaining_at(miner_id, current_time);
            let n = decimal_text(secs);
            let head = join_text("Miner in lockout. ", n.as_str());
            join_text(head.as_str(), " seconds remaining.")
        },
        ValidationResult::RejectedTonceChallenge => "Timestamp failed tonce challenge".to_owned(),
        ValidationResult::RejectedInvalidTimestamp => "Invalid timestamp".to_owned(),
        ValidationResult::RejectedMinerAlreadyAttempted => "Already attempted this round".to_owned(),
        ValidationResult::RejectedBlockchainValidation(e) => join_text(
            "Blockchain validation failed: ",
            e.as_str(),
        ),
        ValidationResult::RejectedInvalidHash => "RejectedInvalidHash".to_owned(),
    }
}

/// Answers `message` at clock time `current_time`. Only a block submission
/// changes the validator; a block whose hashes are not hexadecimal text is
/// answered with an error and changes nothing.
pub fn process_message(validator: &mut Validator, message: MinerMessage, current_time: u128) -> (r:
    ValidatorMessage)
    requires
        old(validator).wf(),
        current_time <= LATEST_TIME,
    ensures
        final(validator).wf(),
        match message {
            MinerMessage::GetRoundInfo { .. } => {
                &&& *final(validator) == *old(validator)
                &&& r matches ValidatorMessage::RoundInfo(d) && {
                    &&& d.round_start == old(validator).round_start()
                    &&& d.tonce == match old(validator).challenge() {
                        Some(c) => Some(c.tonce),
                        None => None::<u8>,
                    }
                    &&& d.challenge_seconds_remaining == match old(validator).challenge() {
                        Some(c) => if challenge_over(c.prev_block_timestamp, current_time) {
                            0
                        } else {
                            (60_000 - elapsed(c.prev_block_timestamp, current_time)) / 1000
                        },
                        None => 0,
                    }
                    &&& d.attempted_miners == old(validator).attempted().len()
                    &&& d.active_lockouts == old(validator).sessions().len()
                    &&& d.difficulty@ == seq!['0', 'x'] + digits(
                        old(validator).chain().difficulty as nat,
                        16,
                    )
                }
            },
            MinerMessage::CheckLockout { miner_id } => {
                &&& *final(validator) == *old(validator)
                &&& r == ValidatorMessage::LockoutStatus {
                    is_locked: locked_out(old(validator).sessions(), miner_id@, current_time),
                    seconds_remaining: lockout_left(old(validator).sessions(), miner_id@, current_time),
                }
            },
            MinerMessage::GetBlockchainInfo => {
                &&& *final(validator) == *old(validator)
                &&& r matches ValidatorMessage::BlockchainInfo { block_count, difficulty }
                    && block_count == old(validator).chain().blocks@.len() && difficulty@ == seq![
                    '0',
                    'x',
                ] + digits(old(validator).chain().difficulty as nat, 16)
            },
            MinerMessage::SubmitBlock { miner_id, block } => if is_hex_text(block.hash@)
                && is_hex_text(block.prev_block_hash@) {
                exists|b: Block, v: ValidationResult|
                    #[trigger] submission_outcome(
                        *old(validator),
                        *final(validator),
                        b,
                        miner_id,
                        current_time,
                        v,
                    ) && describes(block, b) && (r matches ValidatorMessage::BlockResult {
                        result,
                        message,
                    } && result == kind_of(v) && result == verdict(
                        *old(validator),
                        b,
                        miner_id@,
                        current_time,
                    ) && message@ == verdict_message(
                        result,
                        lockout_left(final(validator).sessions(), miner_id@, current_time),
                        reason_of(v),
                    ))
            } else {
                &&& *final(validator) == *old(validator)
                &&& r matches ValidatorMessage::Error { message } && if !is_hex_text(block.hash@) {
                    has_prefix(message@, "Invalid block data: "@ + "Invalid hash hex: "@)
                } else {
                    has_prefix(message@, "Invalid block data: "@ + "Invalid prev_block_hash hex: "@)
                }
            },
        },
{
    match message {
        MinerMessage::GetRoundInfo { miner_id: _ } => {
            let info = validator.get_round_info_at(current_time);
            let difficulty = validator.get_difficulty();
            ValidatorMessage::RoundInfo(RoundInfoData::from_round_info(&info, difficulty))
        },
        MinerMessage::SubmitBlock { miner_id, block } => {
            let block = match block.to_block() {
                Ok(b) => b,
                Err(e) => {
                    let message = join_text("Invalid block data: ", e.as_str());
                    proof {
                        lemma_prefix_extend("Invalid block data: "@, e@, "Invalid hash hex: "@);
                        lemma_prefix_extend("Invalid block data: "@, e@, "Invalid prev_block_hash hex: "@);
                    }
                    return ValidatorMessage::Error { message };
                },
            };
            let result = validator.validate_block_submission_at(block, miner_id.clone(), current_time);
            let message = result_message(validator, &result, &miner_id, current_time);
            ValidatorMessage::BlockResult { result: BlockResultType::from_result(&result), message }
        },
        MinerMessage::CheckLockout { miner_id } => {
            let is_locked = validator.is_miner_locked_at(&miner_id, current_time);
            let seconds_remaining = validator.get_miner_lockout_remaining_at(&miner_id, current_time);
            ValidatorMessage::LockoutStatus { is_locked, seconds_remaining }
        },
        MinerMessage::GetBlockchainInfo => {
            let block_count = validator.get_block_count();
            let difficulty = upper_hex_text(validator.get_difficulty());
            ValidatorMessage::BlockchainInfo { block_count, difficulty }
        },
    }
}

} // verus!
