//! The validator: the round state machine that decides which miner's block
//! extends the chain, and the one-hour lockout ("sacrifice") of each winner.
use vstd::prelude::*;
use crate::block::Block;
use crate::blockchain::{extension_error, BlockValidationErr, Blockchain};
use crate::time_sync::{
    clamp_reading, reading_millis, seconds_between, seconds_until, system_millis, within_tolerance,
    TimeSync,
};
use crate::protocol::{kind_of, BlockResultType};
use crate::tonce::{challenge_over, passes_challenge, tonce_of, TonceChallenge};

verus! {

broadcast use vstd::seq_lib::lemma_seq_contains_after_push;

/// How long a miner whose block was accepted must wait, in milliseconds.
pub const LOCKOUT_MS: u128 = 3_600_000;

/// The latest clock time the validator works with, so that every lockout end
/// fits in a `u128`.
pub const LATEST_TIME: u128 = u128::MAX - LOCKOUT_MS;

/// The current time in milliseconds since the Unix epoch: 0 for a clock set
/// before the epoch, and at most `LATEST_TIME`.
pub fn now() -> (r: u128)
    ensures
        exists|m: Option<u128>| r == #[trigger] clamp_reading(m, LATEST_TIME),
        r <= LATEST_TIME,
{
    let m = system_millis();
    reading_millis(m, LATEST_TIME)
}

/// The lockout of a miner whose block was accepted.
#[derive(Debug, Clone)]
pub struct MinerSession {
    pub miner_id: String,
    pub block_accepted_at: u128,
    pub must_wait_until: u128,
    pub is_active: bool,
}

impl MinerSession {
    /// The session of `miner_id`, whose block was accepted at `block_accepted_at`.
    pub fn new(miner_id: String, block_accepted_at: u128) -> (r: Self)
        requires
            block_accepted_at <= LATEST_TIME,
        ensures
            r == session_of(miner_id, block_accepted_at),
    {
        let must_wait_until = block_accepted_at + LOCKOUT_MS;
        MinerSession { miner_id, block_accepted_at, must_wait_until, is_active: true }
    }

    /// Whether the lockout is over at `current_time`.
    pub fn is_lockout_expired(&self, current_time: u128) -> (r: bool)
        ensures
            r == (current_time >= self.must_wait_until),
    {
        current_time >= self.must_wait_until
    }

    /// Whole seconds of lockout left at `current_time`.
    pub fn seconds_remaining(&self, current_time: u128) -> (r: u64)
        ensures
            r == seconds_until(self.must_wait_until as int, current_time as int),
    {
        seconds_between(current_time, self.must_wait_until)
    }
}

/// The session opened for `miner_id` by a block accepted at `at`.
pub open spec fn session_of(miner_id: String, at: u128) -> MinerSession {
    MinerSession {
        miner_id,
        block_accepted_at: at,
        must_wait_until: (at + LOCKOUT_MS) as u128,
        is_active: true,
    }
}

/// The verdict on a block submission.
#[derive(Debug)]
pub enum ValidationResult {
    Accepted,
    RejectedInvalidHash,
    RejectedInvalidTimestamp,
    RejectedTonceChallenge,
    RejectedMinerInLockout,
    RejectedMinerAlreadyAttempted,
    RejectedBlockchainValidation(String),
}

impl PartialEq for ValidationResult {
    fn eq(&self, other: &ValidationResult) -> (r: bool) {
        match (self, other) {
            (ValidationResult::Accepted, ValidationResult::Accepted) => true,
            (ValidationResult::RejectedInvalidHash, ValidationResult::RejectedInvalidHash) => true,
            (
                ValidationResult::RejectedInvalidTimestamp,
                ValidationResult::RejectedInvalidTimestamp,
            ) => true,
            (ValidationResult::RejectedTonceChallenge, ValidationResult::RejectedTonceChallenge) => true,
            (ValidationResult::RejectedMinerInLockout, ValidationResult::RejectedMinerInLockout) => true,
            (
                ValidationResult::RejectedMinerAlreadyAttempted,
                ValidationResult::RejectedMinerAlreadyAttempted,
            ) => true,
            (
                ValidationResult::RejectedBlockchainValidation(a),
                ValidationResult::RejectedBlockchainValidation(b),
            ) => *a == *b,
            _ => false,
        }
    }
}

impl vstd::std_specs::cmp::PartialEqSpecImpl for ValidationResult {
    open spec fn obeys_eq_spec() -> bool {
        true
    }

    open spec fn eq_spec(&self, other: &ValidationResult) -> bool {
        match (self, other) {
            (ValidationResult::Accepted, ValidationResult::Accepted) => true,
            (ValidationResult::RejectedInvalidHash, ValidationResult::RejectedInvalidHash) => true,
            (
                ValidationResult::RejectedInvalidTimestamp,
                ValidationResult::RejectedInvalidTimestamp,
            ) => true,
            (ValidationResult::RejectedTonceChallenge, ValidationResult::RejectedTonceChallenge) => true,
            (ValidationResult::RejectedMinerInLockout, ValidationResult::RejectedMinerInLockout) => true,
            (
                ValidationResult::RejectedMinerAlreadyAttempted,
                ValidationResult::RejectedMinerAlreadyAttempted,
            ) => true,
            (
                ValidationResult::RejectedBlockchainValidation(a),
                ValidationResult::RejectedBlockchainValidation(b),
            ) => a@ == b@,
            _ => false,
        }
    }
}

/// Whether one of `sessions` locks `id` out at `now`.
pub open spec fn locked_out(sessions: Seq<MinerSession>, id: Seq<char>, now: u128) -> bool {
    exists|s: MinerSession|
        #[trigger] sessions.contains(s) && s.miner_id@ == id && now < s.must_wait_until
}

/// The longest lockout, in whole seconds at `now`, among the sessions of `id`.
pub open spec fn lockout_left(sessions: Seq<MinerSession>, id: Seq<char>, now: u128) -> u64
    decreases sessions.len(),
{
    if sessions.len() == 0 {
        0
    } else {
        let rest = lockout_left(sessions.drop_last(), id, now);
        let s = sessions.last();
        if s.miner_id@ == id && seconds_until(s.must_wait_until as int, now as int) > rest {
            seconds_until(s.must_wait_until as int, now as int)
        } else {
            rest
        }
    }
}

/// No two sessions belong to the same miner.
pub open spec fn one_session_per_miner(s: Seq<MinerSession>) -> bool {
    forall|i: int, j: int|
        0 <= i < s.len() && 0 <= j < s.len() && i != j ==> (#[trigger] s[i]).miner_id@ != (
        #[trigger] s[j]).miner_id@
}

/// Keeping the session at position `i` of `all`, after sessions of other
/// miners taken from earlier positions, still leaves one session per miner.
proof fn lemma_keep_session(before: Seq<MinerSession>, all: Seq<MinerSession>, i: int)
    requires
        0 <= i < all.len(),
        one_session_per_miner(all),
        one_session_per_miner(before),
        forall|k: int, j: int|
            0 <= k < before.len() && i <= j < all.len() ==> (#[trigger] before[k]).miner_id@ != (
            #[trigger] all[j]).miner_id@,
    ensures
        one_session_per_miner(before.push(all[i])),
        forall|k: int, j: int|
            0 <= k < before.len() + 1 && i + 1 <= j < all.len() ==> (#[trigger] before.push(
                all[i],
            )[k]).miner_id@ != (#[trigger] all[j]).miner_id@,
{
    let kept = before.push(all[i]);
    assert forall|k: int, j: int|
        0 <= k < kept.len() && i + 1 <= j < all.len() implies (#[trigger] kept[k]).miner_id@ != (
        #[trigger] all[j]).miner_id@ by {
        if k < before.len() {
            assert(before[k] == kept[k]);
        } else {
            assert(kept[k] == all[i]);
        }
    }
    assert forall|a: int, b: int|
        0 <= a < kept.len() && 0 <= b < kept.len() && a != b implies (#[trigger] kept[a]).miner_id@
        != (#[trigger] kept[b]).miner_id@ by {
        if a < before.len() && b < before.len() {
            assert(before[a] == kept[a] && before[b] == kept[b]);
        } else if a < before.len() {
            assert(before[a] == kept[a]);
            assert(kept[b] == all[i]);
        } else {
            assert(before[b] == kept[b]);
            assert(kept[a] == all[i]);
        }
    }
}

/// The identities in a list of names.
pub open spec fn ids(v: Seq<String>) -> Seq<Seq<char>> {
    v.map_values(|s: String| s@)
}

/// The challenge after a submission was checked against it at `now`: once its
/// window is over the tonce is 1 for good.
pub open spec fn checked_challenge(c: Option<TonceChallenge>, now: u128) -> Option<TonceChallenge> {
    match c {
        Some(t) => if challenge_over(t.prev_block_timestamp, now) {
            Some(TonceChallenge { tonce: 1, challenge_expired: true, ..t })
        } else {
            Some(t)
        },
        None => None,
    }
}

/// Whether a block timestamp passes the round's challenge at `now`.
pub open spec fn challenge_passes(c: Option<TonceChallenge>, timestamp: u128, now: u128) -> bool {
    match c {
        Some(t) => challenge_over(t.prev_block_timestamp, now) || passes_challenge(
            timestamp,
            t.tonce,
        ),
        None => true,
    }
}

/// The challenge of a round whose previous block has timestamp `prev`.
pub open spec fn fresh_challenge(prev: u128) -> TonceChallenge {
    TonceChallenge { prev_block_timestamp: prev, tonce: tonce_of(prev), challenge_expired: false }
}

/// The text of a chain-extension error.
pub open spec fn err_text(e: BlockValidationErr) -> Seq<char> {
    match e {
        BlockValidationErr::MismatchedIndex => "MismatchedIndex"@,
        BlockValidationErr::InvalidHash => "InvalidHash"@,
        BlockValidationErr::AchronologicalTimestamp => "AchronologicalTimestamp"@,
        BlockValidationErr::MismatchedPreviousHash => "MismatchedPreviousHash"@,
        BlockValidationErr::InvalidGenesisBlockFormat => "InvalidGenesisBlockFormat"@,
    }
}

/// The kind of verdict that `block`, submitted by `id` at `now`, gets from the
/// validator in state `o`.
pub open spec fn verdict(o: Validator, block: Block, id: Seq<char>, now: u128) -> BlockResultType {
    if locked_out(o.sessions(), id, now) {
        BlockResultType::RejectedMinerInLockout
    } else if ids(o.attempted()).contains(id) {
        BlockResultType::RejectedMinerAlreadyAttempted
    } else if !within_tolerance(o.time_rules().tolerance_ms, block.timestamp, now) {
        BlockResultType::RejectedInvalidTimestamp
    } else if !challenge_passes(o.challenge(), block.timestamp, now) {
        BlockResultType::RejectedTonceChallenge
    } else if extension_error(o.chain().blocks@, o.chain().difficulty, block) is Some {
        BlockResultType::RejectedBlockchainValidation
    } else {
        BlockResultType::Accepted
    }
}

/// Whether one of `sessions` belongs to `id`, expired or not.
pub open spec fn has_session(sessions: Seq<MinerSession>, id: Seq<char>) -> bool {
    exists|s: MinerSession| #[trigger] sessions.contains(s) && s.miner_id@ == id
}

/// A session whose lockout ends one hour after its block was accepted.
pub open spec fn session_ok(s: MinerSession) -> bool {
    s.must_wait_until == s.block_accepted_at + LOCKOUT_MS
}

/// Whole seconds left, at `now`, in the challenge `c`; 0 when there is none.
pub open spec fn challenge_seconds_at(c: Option<TonceChallenge>, now: u128) -> int {
    match c {
        Some(t) => if challenge_over(t.prev_block_timestamp, now) {
            0
        } else {
            (60_000 - crate::tonce::elapsed(t.prev_block_timestamp, now)) / 1000
        },
        None => 0,
    }
}

/// `f` is `o` after a new round opened at `now`: a fresh challenge from the
/// last block's timestamp (or from `now` on an empty chain), no attempts,
/// the round starting at `now`, and the sessions still running at `now` kept.
pub open spec fn round_started(o: Validator, f: Validator, now: u128) -> bool {
    &&& f.wf()
    &&& f.chain() == o.chain()
    &&& f.time_rules() == o.time_rules()
    &&& f.challenge() == Some(
        fresh_challenge(
            if o.chain().blocks@.len() > 0 {
                o.chain().blocks@.last().timestamp
            } else {
                now
            },
        ),
    )
    &&& f.attempted().len() == 0
    &&& f.round_start() == now
    &&& forall|s: MinerSession|
        #[trigger] f.sessions().contains(s) <==> o.sessions().contains(s) && now < s.must_wait_until
}

/// The verdict `r` and the next state `f` of a validator in state `o` that
/// judges `block`, submitted by `miner_id`, at clock time `now`. The checks
/// run in order and the first that fails decides: the miner's lockout, an
/// earlier attempt in this round (from here on the attempt is recorded,
/// whatever follows), the timestamp's tolerance, the round's challenge, and
/// the chain's own rules. An accepted block locks its miner out for an hour
/// and opens the next round at once, from that block's timestamp.
pub open spec fn submission_outcome(
    o: Validator,
    f: Validator,
    block: Block,
    miner_id: String,
    now: u128,
    r: ValidationResult,
) -> bool {
    let ts = block.timestamp;
    &&& f.wf()
    &&& f.chain().difficulty == o.chain().difficulty
    &&& kind_of(r) == verdict(o, block, miner_id@, now)
    &&& if locked_out(o.sessions(), miner_id@, now) {
        r == ValidationResult::RejectedMinerInLockout && f == o
    } else if ids(o.attempted()).contains(miner_id@) {
        r == ValidationResult::RejectedMinerAlreadyAttempted && f == o
    } else if !within_tolerance(o.time_rules().tolerance_ms, ts, now) {
        r == ValidationResult::RejectedInvalidTimestamp && f.is_after_attempt(o, miner_id)
    } else if !challenge_passes(o.challenge(), ts, now) {
        r == ValidationResult::RejectedTonceChallenge && f.is_after_attempt(o, miner_id)
    } else {
        match extension_error(o.chain().blocks@, o.chain().difficulty, block) {
            Some(e) => {
                &&& r matches ValidationResult::RejectedBlockchainValidation(m) && m@ == err_text(e)
                &&& f.chain() == o.chain()
                &&& f.time_rules() == o.time_rules()
                &&& f.challenge() == checked_challenge(o.challenge(), now)
                &&& f.sessions() == o.sessions()
                &&& f.attempted() == o.attempted().push(miner_id)
                &&& f.round_start() == o.round_start()
            },
            None => {
                &&& r == ValidationResult::Accepted
                &&& f.chain().blocks@ == o.chain().blocks@.push(block)
                &&& f.time_rules() == o.time_rules()
                &&& f.challenge() == Some(fresh_challenge(ts))
                &&& f.attempted().len() == 0
                &&& f.round_start() == now
                &&& forall|s: MinerSession| #[trigger]
                    f.sessions().contains(s) <==> (o.sessions().contains(s) && s.miner_id@
                        != miner_id@ && now < s.must_wait_until) || s == session_of(miner_id, now)
            },
        }
    }
}

/// A miner that holds a session whose hour has not run out at `now` is
/// turned away, whatever block it submits, and nothing changes.
pub proof fn lemma_lockout_rejects(
    o: Validator,
    f: Validator,
    block: Block,
    miner_id: String,
    now: u128,
    r: ValidationResult,
    s: MinerSession,
)
    requires
        o.wf(),
        o.sessions().contains(s),
        s.miner_id@ == miner_id@,
        s.block_accepted_at + LOCKOUT_MS > now,
        submission_outcome(o, f, block, miner_id, now, r),
    ensures
        r == ValidationResult::RejectedMinerInLockout,
        f == o,
{
}

/// A miner that is not locked out but has already submitted in this round is
/// turned away, however valid its block, and nothing changes.
pub proof fn lemma_second_attempt_rejected(
    o: Validator,
    f: Validator,
    block: Block,
    miner_id: String,
    now: u128,
    r: ValidationResult,
)
    requires
        !locked_out(o.sessions(), miner_id@, now),
        ids(o.attempted()).contains(miner_id@),
        submission_outcome(o, f, block, miner_id, now, r),
    ensures
        r == ValidationResult::RejectedMinerAlreadyAttempted,
        f == o,
{
}

/// After an accepted block the round has no attempts and a fresh challenge
/// made from that block's timestamp, so at most one block is accepted per round.
pub proof fn lemma_accept_rotates_round(
    o: Validator,
    f: Validator,
    block: Block,
    miner_id: String,
    now: u128,
    r: ValidationResult,
)
    requires
        submission_outcome(o, f, block, miner_id, now, r),
        r == ValidationResult::Accepted,
    ensures
        f.attempted().len() == 0,
        f.challenge() == Some(fresh_challenge(block.timestamp)),
        f.round_start() == now,
{
}

/// A snapshot of the current round.
#[derive(Debug, Clone)]
pub struct RoundInfo {
    pub round_start: u128,
    pub tonce: Option<u8>,
    pub challenge_seconds_remaining: u64,
    pub attempted_miners: usize,
    pub active_lockouts: usize,
}

/// The validator's state: the chain, the current round and the lockouts.
pub struct Validator {
    blockchain: Blockchain,
    time_sync: TimeSync,
    current_tonce: Option<TonceChallenge>,
    active_sessions: Vec<MinerSession>,
    attempted_this_round: Vec<String>,
    current_round_start: u128,
}

/// Whether `id` is among `v`.
fn contains_id(v: &Vec<String>, id: &String) -> (r: bool)
    ensures
        r == ids(v@).contains(id@),
{
    let mut i: usize = 0;
    while i < v.len()
        invariant
            i <= v@.len(),
            forall|j: int| 0 <= j < i ==> v@[j]@ != id@,
        decreases v@.len() - i,
    {
        if v[i] == *id {
            assert(ids(v@)[i as int] == id@);
            return true;
        }
        i = i + 1;
    }
    assert(!ids(v@).contains(id@)) by {
        if ids(v@).contains(id@) {
            let j = choose|j: int| 0 <= j < ids(v@).len() && ids(v@)[j] == id@;
            assert(v@[j]@ == id@);
        }
    }
    false
}

impl Validator {
    /// The chain.
    pub closed spec fn chain(&self) -> Blockchain {
        self.blockchain
    }

    /// The timestamp tolerance rules.
    pub closed spec fn time_rules(&self) -> TimeSync {
        self.time_sync
    }

    /// The current round's challenge, if a round has started.
    pub closed spec fn challenge(&self) -> Option<TonceChallenge> {
        self.current_tonce
    }

    /// The lockout sessions.
    pub closed spec fn sessions(&self) -> Seq<MinerSession> {
        self.active_sessions@
    }

    /// The miners who submitted in the current round, in order.
    pub closed spec fn attempted(&self) -> Seq<String> {
        self.attempted_this_round@
    }

    /// When the current round started.
    pub closed spec fn round_start(&self) -> u128 {
        self.current_round_start
    }

    /// The validator's invariant: a challenge, when there is one, has a
    /// divisor in range; the sessions form a map from miners, each ending an
    /// hour after its block was accepted; the attempts form a set of miners.
    pub open spec fn wf(&self) -> bool {
        &&& (self.challenge() matches Some(c) ==> c.wf())
        &&& one_session_per_miner(self.sessions())
        &&& forall|s: MinerSession| #[trigger] self.sessions().contains(s) ==> session_ok(s)
        &&& ids(self.attempted()).no_duplicates()
    }

    /// `self` is `o` with `id` recorded as having attempted this round.
    pub open spec fn is_after_attempt(&self, o: Validator, id: String) -> bool {
        &&& self.chain() == o.chain()
        &&& self.time_rules() == o.time_rules()
        &&& self.challenge() == o.challenge()
        &&& self.sessions() == o.sessions()
        &&& self.attempted() == o.attempted().push(id)
        &&& self.round_start() == o.round_start()
    }

    /// A validator with an empty chain held to `difficulty`, before any round.
    pub fn new(difficulty: u128) -> (r: Self)
        ensures
            r.wf(),
            r.chain().blocks@.len() == 0,
            r.chain().difficulty == difficulty,
            r.time_rules().tolerance_ms == 500,
            r.challenge() is None,
            r.sessions().len() == 0,
            r.attempted().len() == 0,
    {
        Validator {
            blockchain: Blockchain::new_with_diff(difficulty),
            time_sync: TimeSync::new(),
            current_tonce: None,
            active_sessions: Vec::new(),
            attempted_this_round: Vec::new(),
            current_round_start: now(),
        }
    }

    /// Drops the sessions whose lockout is over at `current_time`.
    fn prune_sessions(&mut self, current_time: u128)
        requires
            one_session_per_miner(old(self).sessions()),
        ensures
            one_session_per_miner(final(self).sessions()),
            final(self).chain() == old(self).chain(),
            final(self).time_rules() == old(self).time_rules(),
            final(self).challenge() == old(self).challenge(),
            final(self).attempted() == old(self).attempted(),
            final(self).round_start() == old(self).round_start(),
            forall|s: MinerSession|
                #[trigger] final(self).sessions().contains(s) <==> old(self).sessions().contains(s)
                    && current_time < s.must_wait_until,
    {
        let mut kept: Vec<MinerSession> = Vec::new();
        let ghost all = self.active_sessions@;
        let mut i: usize = 0;
        while i < self.active_sessions.len()
            invariant
                i <= all.len(),
                self.active_sessions@ == all,
                forall|s: MinerSession|
                    #[trigger] kept@.contains(s) <==> all.subrange(0, i as int).contains(s)
                        && current_time < s.must_wait_until,
                one_session_per_miner(all),
                one_session_per_miner(kept@),
                forall|k: int, j: int|
                    0 <= k < kept@.len() && i <= j < all.len() ==> (#[trigger] kept@[k]).miner_id@
                        != (#[trigger] all[j]).miner_id@,
            decreases all.len() - i,
        {
            let ghost prefix = all.subrange(0, i as int);
            let ghost before = kept@;
            if current_time < self.active_sessions[i].must_wait_until {
                kept.push(self.active_sessions[i].clone_session());
                proof {
                    assert(kept@ == before.push(all[i as int]));
                    lemma_keep_session(before, all, i as int);
                }
            }
            i = i + 1;
            assert(all.subrange(0, i as int) =~= prefix.push(all[i - 1]));
        }
        assert(all.subrange(0, all.len() as int) =~= all);
        self.active_sessions = kept;
    }

    /// Opens a new round at `current_time`: a fresh challenge from the last
    /// block's timestamp (or from `current_time` on an empty chain), no
    /// attempts yet, and the sessions whose lockout is over dropped.
    pub fn start_new_round_at(&mut self, current_time: u128)
        requires
            old(self).wf(),
        ensures
            round_started(*old(self), *final(self), current_time),
    {
        let prev_timestamp = match self.blockchain.tip_timestamp() {
            Some(t) => t,
            None => current_time,
        };
        self.current_tonce = Some(TonceChallenge::new(prev_timestamp));
        self.current_round_start = current_time;
        self.attempted_this_round = Vec::new();
        proof {
            assert(ids(self.attempted_this_round@) =~= Seq::<Seq<char>>::empty());
        }
        self.prune_sessions(current_time);
    }

    /// Opens a new round now; see `start_new_round_at`.
    pub fn start_new_round(&mut self)
        requires
            old(self).wf(),
        ensures
            exists|t: u128| t <= LATEST_TIME && #[trigger] round_started(*old(self), *final(self), t),
            final(self).wf(),
            final(self).chain() == old(self).chain(),
            final(self).attempted().len() == 0,
            old(self).chain().blocks@.len() > 0 ==> final(self).challenge() == Some(
                fresh_challenge(old(self).chain().blocks@.last().timestamp),
            ),
    {
        let t = now();
        self.start_new_round_at(t);
    }

    /// Records `session`, replacing any earlier session of the same miner.
    pub fn insert_session(&mut self, session: MinerSession)
        requires
            old(self).wf(),
            session_ok(session),
        ensures
            final(self).wf(),
            final(self).chain() == old(self).chain(),
            final(self).time_rules() == old(self).time_rules(),
            final(self).challenge() == old(self).challenge(),
            final(self).attempted() == old(self).attempted(),
            final(self).round_start() == old(self).round_start(),
            forall|s: MinerSession|
                #[trigger] final(self).sessions().contains(s) <==> (old(self).sessions().contains(s)
                    && s.miner_id@ != session.miner_id@) || s == session,
    {
        let mut kept: Vec<MinerSession> = Vec::new();
        let ghost all = self.active_sessions@;
        let mut i: usize = 0;
        while i < self.active_sessions.len()
            invariant
                i <= all.len(),
                self.active_sessions@ == all,
                forall|s: MinerSession|
                    #[trigger] kept@.contains(s) <==> all.subrange(0, i as int).contains(s)
                        && s.miner_id@ != session.miner_id@,
                one_session_per_miner(all),
                one_session_per_miner(kept@),
                forall|k: int, j: int|
                    0 <= k < kept@.len() && i <= j < all.len() ==> (#[trigger] kept@[k]).miner_id@
                        != (#[trigger] all[j]).miner_id@,
            decreases all.len() - i,
        {
            let ghost prefix = all.subrange(0, i as int);
            let ghost before = kept@;
            if self.active_sessions[i].miner_id != session.miner_id {
                kept.push(self.active_sessions[i].clone_session());
                proof {
                    assert(kept@ == before.push(all[i as int]));
                    lemma_keep_session(before, all, i as int);
                }
            }
            i = i + 1;
            assert(all.subrange(0, i as int) =~= prefix.push(all[i - 1]));
        }
        assert(all.subrange(0, all.len() as int) =~= all);
        let ghost before = kept@;
        kept.push(session);
        proof {
            assert forall|a: int, b: int|
                0 <= a < kept@.len() && 0 <= b < kept@.len() && a != b implies (
                #[trigger] kept@[a]).miner_id@ != (#[trigger] kept@[b]).miner_id@ by {
                if a < before.len() && b < before.len() {
                    assert(before[a] == kept@[a] && before[b] == kept@[b]);
                } else if a < before.len() {
                    assert(before.contains(before[a]));
                    assert(before[a] == kept@[a]);
                } else {
                    assert(before.contains(before[b]));
                    assert(before[b] == kept@[b]);
                }
            }
        }
        self.active_sessions = kept;
    }

    /// Whether `miner_id` is locked out at `current_time`.
    pub fn is_miner_locked_at(&self, miner_id: &String, current_time: u128) -> (r: bool)
        ensures
            r == locked_out(self.sessions(), miner_id@, current_time),
    {
        let mut i: usize = 0;
        while i < self.active_sessions.len()
            invariant
                i <= self.active_sessions@.len(),
                forall|j: int|
                    0 <= j < i ==> !(self.active_sessions@[j].miner_id@ == miner_id@ && current_time
                        < self.active_sessions@[j].must_wait_until),
            decreases self.active_sessions@.len() - i,
        {
            let s = &self.active_sessions[i];
            if s.miner_id == *miner_id && current_time < s.must_wait_until {
                assert(self.sessions().contains(self.active_sessions@[i as int]));
                return true;
            }
            i = i + 1;
        }
        assert(!locked_out(self.sessions(), miner_id@, current_time)) by {
            if locked_out(self.sessions(), miner_id@, current_time) {
                let s = choose|s: MinerSession|
                    #[trigger] self.sessions().contains(s) && s.miner_id@ == miner_id@ && current_time
                        < s.must_wait_until;
                let j = choose|j: int| 0 <= j < self.sessions().len() && self.sessions()[j] == s;
                assert(self.active_sessions@[j] == s);
            }
        }
        false
    }

    /// Judges `block`, submitted by `miner_id`, at clock time `current_time`,
    /// as `submission_outcome` states.
    pub fn validate_block_submission_at(
        &mut self,
        block: Block,
        miner_id: String,
        current_time: u128,
    ) -> (r: ValidationResult)
        requires
            old(self).wf(),
            current_time <= LATEST_TIME,
        ensures
            submission_outcome(*old(self), *final(self), block, miner_id, current_time, r),
    {
        if self.is_miner_locked_at(&miner_id, current_time) {
            return ValidationResult::RejectedMinerInLockout;
        }
        if contains_id(&self.attempted_this_round, &miner_id) {
            return ValidationResult::RejectedMinerAlreadyAttempted;
        }
        let ghost o = *self;
        self.attempted_this_round.push(miner_id.clone());
        proof {
            assert(self.attempted_this_round@ == o.attempted().push(miner_id));
            assert(ids(self.attempted_this_round@) =~= ids(o.attempted()).push(miner_id@));
        }
        if !self.time_sync.validate_timestamp_at(block.timestamp, current_time) {
            return ValidationResult::RejectedInvalidTimestamp;
        }
        let passes = match &mut self.current_tonce {
            Some(c) => c.validate_timestamp(block.timestamp, current_time),
            None => true,
        };
        if !passes {
            return ValidationResult::RejectedTonceChallenge;
        }
        let timestamp = block.timestamp;
        match self.blockchain.update_with_block(block) {
            Ok(()) => {
                let session = MinerSession::new(miner_id, current_time);
                self.insert_session(session);
                self.start_new_round_at(current_time);
                proof {
                    assert(self.blockchain.blocks@.last().timestamp == timestamp);
                }
                ValidationResult::Accepted
            },
            Err(e) => ValidationResult::RejectedBlockchainValidation(e.name()),
        }
    }

    /// Judges `block`, submitted by `miner_id`, against the clock; see
    /// `validate_block_submission_at`.
    pub fn validate_block_submission(&mut self, block: Block, miner_id: String) -> (r:
        ValidationResult)
        requires
            old(self).wf(),
        ensures
            exists|t: u128|
                t <= LATEST_TIME && #[trigger] submission_outcome(
                    *old(self),
                    *final(self),
                    block,
                    miner_id,
                    t,
                    r,
                ),
            final(self).wf(),
            !has_session(old(self).sessions(), miner_id@) && ids(old(self).attempted()).contains(
                miner_id@,
            ) ==> r == ValidationResult::RejectedMinerAlreadyAttempted && *final(self) == *old(self),
    {
        let t = now();
        self.validate_block_submission_at(block, miner_id, t)
    }

    /// The current round's tonce, if a round has started.
    pub fn get_current_tonce(&self) -> (r: Option<u8>)
        ensures
            r == match self.challenge() {
                Some(c) => Some(c.tonce),
                None => None::<u8>,
            },
    {
        match &self.current_tonce {
            Some(c) => Some(c.get_tonce()),
            None => None,
        }
    }

    /// Whole seconds left in the round's challenge at `current_time`; 0 before any round.
    pub fn get_challenge_time_remaining_at(&self, current_time: u128) -> (r: u64)
        ensures
            r == challenge_seconds_at(self.challenge(), current_time),
    {
        match &self.current_tonce {
            Some(c) => c.seconds_remaining(current_time),
            None => 0,
        }
    }

    /// Whole seconds left in the round's challenge now.
    pub fn get_challenge_time_remaining(&self) -> (r: u64)
        ensures
            exists|t: u128| t <= LATEST_TIME && r == #[trigger] challenge_seconds_at(self.challenge(), t),
            self.challenge() is None ==> r == 0,
            r <= 60,
    {
        let t = now();
        self.get_challenge_time_remaining_at(t)
    }

    /// Whether `miner_id` is locked out now.
    pub fn is_miner_in_lockout(&self, miner_id: &str) -> (r: bool)
        ensures
            exists|t: u128| t <= LATEST_TIME && r == #[trigger] locked_out(self.sessions(), miner_id@, t),
            !has_session(self.sessions(), miner_id@) ==> !r,
    {
        let id = miner_id.to_owned();
        let t = now();
        self.is_miner_locked_at(&id, t)
    }

    /// Whole seconds of lockout left for `miner_id` at `current_time`, 0 if it has no session.
    pub fn get_miner_lockout_remaining_at(&self, miner_id: &String, current_time: u128) -> (r: u64)
        ensures
            r == lockout_left(self.sessions(), miner_id@, current_time),
    {
        let mut best: u64 = 0;
        let mut i: usize = 0;
        while i < self.active_sessions.len()
            invariant
                i <= self.active_sessions@.len(),
                best == lockout_left(self.active_sessions@.subrange(0, i as int), miner_id@, current_time),
            decreases self.active_sessions@.len() - i,
        {
            let ghost prefix = self.active_sessions@.subrange(0, i as int);
            let s = &self.active_sessions[i];
            if s.miner_id == *miner_id {
                let left = s.seconds_remaining(current_time);
                if left > best {
                    best = left;
                }
            }
            i = i + 1;
            assert(self.active_sessions@.subrange(0, i as int).drop_last() =~= prefix);
        }
        assert(self.active_sessions@.subrange(0, self.active_sessions@.len() as int) =~= self.active_sessions@);
        best
    }

    /// Whole seconds of lockout left for `miner_id` now.
    pub fn get_miner_lockout_remaining(&self, miner_id: &str) -> (r: u64)
        ensures
            exists|t: u128| t <= LATEST_TIME && r == #[trigger] lockout_left(self.sessions(), miner_id@, t),
    {
        let id = miner_id.to_owned();
        let t = now();
        self.get_miner_lockout_remaining_at(&id, t)
    }

    /// The number of blocks in the chain.
    pub fn get_block_count(&self) -> (r: usize)
        ensures
            r == self.chain().blocks@.len(),
    {
        self.blockchain.blocks.len()
    }

    /// The proof-of-work difficulty.
    pub fn get_difficulty(&self) -> (r: u128)
        ensures
            r == self.chain().difficulty,
    {
        self.blockchain.get_difficulty()
    }

    /// The chain.
    pub fn blockchain(&self) -> (r: &Blockchain)
        ensures
            *r == self.chain(),
    {
        &self.blockchain
    }

    /// A snapshot of the round at `current_time`.
    pub fn get_round_info_at(&self, current_time: u128) -> (r: RoundInfo)
        ensures
            r.round_start == self.round_start(),
            r.tonce == match self.challenge() {
                Some(c) => Some(c.tonce),
                None => None::<u8>,
            },
            r.challenge_seconds_remaining == challenge_seconds_at(self.challenge(), current_time),
            r.attempted_miners == self.attempted().len(),
            r.active_lockouts == self.sessions().len(),
    {
        RoundInfo {
            round_start: self.current_round_start,
            tonce: self.get_current_tonce(),
            challenge_seconds_remaining: self.get_challenge_time_remaining_at(current_time),
            attempted_miners: self.attempted_this_round.len(),
            active_lockouts: self.active_sessions.len(),
        }
    }

    /// A snapshot of the round now.
    pub fn get_round_info(&self) -> (r: RoundInfo)
        ensures
            exists|t: u128|
                t <= LATEST_TIME && r.challenge_seconds_remaining == #[trigger] challenge_seconds_at(
                    self.challenge(),
                    t,
                ),
            r.round_start == self.round_start(),
            r.tonce == match self.challenge() {
                Some(c) => Some(c.tonce),
                None => None::<u8>,
            },
            r.attempted_miners == self.attempted().len(),
            r.active_lockouts == self.sessions().len(),
    {
        let t = now();
        self.get_round_info_at(t)
    }
}

impl MinerSession {
    /// A copy of this session.
    pub fn clone_session(&self) -> (r: MinerSession)
        ensures
            r == *self,
    {
        MinerSession {
            miner_id: self.miner_id.clone(),
            block_accepted_at: self.block_accepted_at,
            must_wait_until: self.must_wait_until,
            is_active: self.is_active,
        }
    }
}

} // verus!
