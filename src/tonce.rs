//! The timestamp challenge of a mining round.
//!
//! At the start of a round the previous block's timestamp is hashed and the low
//! five bits of the digest give a divisor, the tonce. For the first minute a
//! block's timestamp is accepted only when the last four bytes of its own digest
//! are divisible by the tonce; after that the tonce drops to 1 and any timestamp
//! passes, which turns the round into a race to submit.
use vstd::prelude::*;
use crate::bytes::{le_bytes, u128_bytes};
use crate::digest::{sha256, sha256_of};

verus! {

/// How long the divisibility challenge of a round lasts, in milliseconds.
pub const TONCE_CHALLENGE_DURATION_MS: u128 = 60_000;

/// The digest of a timestamp, taken over its sixteen little-endian bytes.
pub open spec fn timestamp_digest(t: u128) -> Seq<u8> {
    sha256_of(le_bytes(t as nat, 16))
}

/// The tonce a digest gives: the low five bits of its last byte, 0 read as 1.
pub open spec fn tonce_from(d: Seq<u8>) -> u8 {
    if d[31] & 31u8 == 0 {
        1u8
    } else {
        d[31] & 31u8
    }
}

/// The tonce of a round whose previous block has timestamp `t`.
pub open spec fn tonce_of(t: u128) -> u8 {
    tonce_from(timestamp_digest(t))
}

/// The last four bytes of a digest read as a big-endian unsigned integer.
pub open spec fn digest_tail(d: Seq<u8>) -> nat {
    d[28] as nat * 16777216 + d[29] as nat * 65536 + d[30] as nat * 256 + d[31] as nat
}

/// Whether a digest's tail is divisible by `tonce`.
pub open spec fn digest_divisible(d: Seq<u8>, tonce: u8) -> bool {
    digest_tail(d) % (tonce as nat) == 0
}

/// Whether the timestamp `t` passes the divisibility challenge for `tonce`.
pub open spec fn passes_challenge(t: u128, tonce: u8) -> bool {
    digest_divisible(timestamp_digest(t), tonce)
}

/// Milliseconds from `from` to `now`, or 0 when `now` is earlier.
pub open spec fn elapsed(from: u128, now: u128) -> int {
    if now >= from {
        now - from
    } else {
        0
    }
}

/// Whether the challenge started at `from` is over at `now`.
pub open spec fn challenge_over(from: u128, now: u128) -> bool {
    elapsed(from, now) >= TONCE_CHALLENGE_DURATION_MS
}

/// The tonce that a 32-byte digest gives.
pub fn tonce_from_digest(d: &Vec<u8>) -> (r: u8)
    requires
        d@.len() == 32,
    ensures
        r == tonce_from(d@),
        1 <= r <= 31,
{
    let low = d[31] & 31u8;
    proof {
        let b = d@[31];
        assert(b & 31u8 <= 31u8) by (bit_vector);
    }
    if low == 0 {
        1
    } else {
        low
    }
}

/// Whether the last four bytes of a 32-byte digest are divisible by `tonce`.
pub fn digest_passes(d: &Vec<u8>, tonce: u8) -> (r: bool)
    requires
        d@.len() == 32,
        tonce >= 1,
    ensures
        r == digest_divisible(d@, tonce),
{
    let tail: u32 = (d[28] as u32) * 16777216 + (d[29] as u32) * 65536 + (d[30] as u32) * 256
        + (d[31] as u32);
    tail % (tonce as u32) == 0
}

/// The divisibility challenge of one mining round.
#[derive(Debug, Clone)]
pub struct TonceChallenge {
    /// The timestamp of the previous accepted block.
    pub prev_block_timestamp: u128,
    /// The divisor, between 1 and 31.
    pub tonce: u8,
    /// Whether the challenge has been seen to expire.
    pub challenge_expired: bool,
}

impl TonceChallenge {
    /// A challenge is well formed when its divisor is in range.
    pub open spec fn wf(&self) -> bool {
        1 <= self.tonce <= 31
    }

    /// A fresh challenge for a round whose previous block has timestamp `prev_block_timestamp`.
    pub fn new(prev_block_timestamp: u128) -> (r: Self)
        ensures
            r.prev_block_timestamp == prev_block_timestamp,
            r.tonce == tonce_of(prev_block_timestamp),
            !r.challenge_expired,
            r.wf(),
    {
        let tonce = Self::calculate_tonce(prev_block_timestamp);
        TonceChallenge { prev_block_timestamp, tonce, challenge_expired: false }
    }

    fn calculate_tonce(timestamp: u128) -> (r: u8)
        ensures
            r == tonce_of(timestamp),
            1 <= r <= 31,
    {
        let timestamp_bytes = u128_bytes(&timestamp);
        let hash = sha256(timestamp_bytes.as_slice());
        tonce_from_digest(&hash)
    }

    /// Checks a block timestamp against the challenge at time `current_time`.
    /// Once the challenge window is over the tonce collapses to 1 for good and
    /// every timestamp passes.
    pub fn validate_timestamp(&mut self, timestamp: u128, current_time: u128) -> (r: bool)
        requires
            old(self).tonce >= 1,
        ensures
            challenge_over(old(self).prev_block_timestamp, current_time) ==> r && *final(self) == (
            TonceChallenge { tonce: 1, challenge_expired: true, ..*old(self) }),
            !challenge_over(old(self).prev_block_timestamp, current_time) ==> r == passes_challenge(
                timestamp,
                old(self).tonce,
            ) && *final(self) == *old(self),
    {
        let time_since_prev_block = current_time.saturating_sub(self.prev_block_timestamp);
        if time_since_prev_block >= TONCE_CHALLENGE_DURATION_MS {
            self.challenge_expired = true;
            self.tonce = 1;
            return true;
        }
        self.is_timestamp_divisible(timestamp)
    }

    /// Whether the digest of `timestamp` passes the divisibility check for the current tonce.
    pub fn is_timestamp_divisible(&self, timestamp: u128) -> (r: bool)
        requires
            self.tonce >= 1,
        ensures
            r == passes_challenge(timestamp, self.tonce),
    {
        let timestamp_bytes = u128_bytes(&timestamp);
        let hash = sha256(timestamp_bytes.as_slice());
        digest_passes(&hash, self.tonce)
    }

    /// Whole seconds left in the challenge window at `current_time`.
    pub fn seconds_remaining(&self, current_time: u128) -> (r: u64)
        ensures
            r == if challenge_over(self.prev_block_timestamp, current_time) {
                0
            } else {
                (TONCE_CHALLENGE_DURATION_MS - elapsed(self.prev_block_timestamp, current_time))
                    / 1000
            },
    {
        let time_since_prev_block = current_time.saturating_sub(self.prev_block_timestamp);
        if time_since_prev_block >= TONCE_CHALLENGE_DURATION_MS {
            0
        } else {
            ((TONCE_CHALLENGE_DURATION_MS - time_since_prev_block) / 1000) as u64
        }
    }

    /// The current divisor.
    pub fn get_tonce(&self) -> (r: u8)
        ensures
            r == self.tonce,
    {
        self.tonce
    }

    /// Whether the challenge window is over at `current_time`.
    pub fn is_expired(&self, current_time: u128) -> (r: bool)
        ensures
            r == challenge_over(self.prev_block_timestamp, current_time),
    {
        let time_since_prev_block = current_time.saturating_sub(self.prev_block_timestamp);
        time_since_prev_block >= TONCE_CHALLENGE_DURATION_MS
    }
}

/// Searches `start_time`, `start_time + 1`, ... for the first of `max_attempts`
/// timestamps that passes the challenge for `tonce`. With a tonce of 0 or 1
/// every timestamp passes and `start_time` is returned at once.
pub fn find_valid_timestamp(tonce: u8, start_time: u128, max_attempts: u32) -> (r: Option<u128>)
    requires
        tonce > 1 ==> start_time + max_attempts <= u128::MAX,
    ensures
        tonce <= 1 ==> r == Some(start_time),
        tonce > 1 ==> match r {
            Some(t) => start_time <= t < start_time + max_attempts && passes_challenge(t, tonce)
                && forall|c: u128| start_time <= c < t ==> !passes_challenge(c, tonce),
            None => forall|c: u128|
                start_time <= c < start_time + max_attempts ==> !passes_challenge(c, tonce),
        },
{
    if tonce == 0 || tonce == 1 {
        return Some(start_time);
    }
    let mut i: u32 = 0;
    while i < max_attempts
        invariant
            i <= max_attempts,
            tonce > 1,
            start_time + max_attempts <= u128::MAX,
            forall|c: u128| start_time <= c < start_time + i ==> !passes_challenge(c, tonce),
        decreases max_attempts - i,
    {
        let candidate_timestamp = start_time + i as u128;
        let timestamp_bytes = u128_bytes(&candidate_timestamp);
        let hash = sha256(timestamp_bytes.as_slice());
        if digest_passes(&hash, tonce) {
            return Some(candidate_timestamp);
        }
        i = i + 1;
    }
    None
}

} // verus!
