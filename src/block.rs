//! Block and transaction records, their byte layout and proof-of-work check.
use vstd::prelude::*;
use crate::bytes::{difficulty_bytes_as_u128, le_bytes, le_int, u128_bytes, u32_bytes, u64_bytes};
use crate::digest::{sha256, sha256_of};
use crate::blockchain::same_bytes;

verus! {

broadcast use vstd::seq_lib::lemma_seq_contains_after_push;

/// Appends `bytes` to `out` in order.
pub(crate) fn push_all(out: &mut Vec<u8>, bytes: &[u8])
    ensures
        final(out)@ == old(out)@ + bytes@,
{
    let mut i: usize = 0;
    while i < bytes.len()
        invariant
            i <= bytes@.len(),
            out@ == old(out)@ + bytes@.subrange(0, i as int),
        decreases bytes@.len() - i,
    {
        out.push(bytes[i]);
        i = i + 1;
        assert(bytes@.subrange(0, i as int) == bytes@.subrange(0, i - 1 as int).push(bytes@[i - 1]));
    }
    assert(bytes@.subrange(0, bytes@.len() as int) =~= bytes@);
}

/// Appends `bytes` to `out` last byte first.
pub(crate) fn push_reversed(out: &mut Vec<u8>, bytes: &[u8])
    ensures
        final(out)@ == old(out)@ + bytes@.reverse(),
{
    let mut i: usize = bytes.len();
    while i > 0
        invariant
            i <= bytes@.len(),
            out@ == old(out)@ + bytes@.subrange(i as int, bytes@.len() as int).reverse(),
        decreases i,
    {
        let ghost before = bytes@.subrange(i as int, bytes@.len() as int);
        i = i - 1;
        out.push(bytes[i]);
        assert(bytes@.subrange(i as int, bytes@.len() as int).reverse() =~= before.reverse().push(
            bytes@[i as int],
        ));
    }
    assert(bytes@.subrange(0, bytes@.len() as int) =~= bytes@);
}

/// The `n` least significant base-256 digits of `v`, most significant first.
pub open spec fn be_bytes(v: nat, n: nat) -> Seq<u8> {
    le_bytes(v, n).reverse()
}

/// An amount moved to an address. The amount is kept as the bit pattern of
/// its IEEE-754 double, the form in which it enters the block's bytes.
#[derive(Clone, Debug)]
pub struct Output {
    pub to_addr: String,
    pub value_bits: u64,
    pub timestamp: u128,
}

/// A transfer: the outputs it spends and the outputs it creates.
#[derive(Clone, Debug)]
pub struct Transaction {
    pub inputs: Vec<Output>,
    pub outputs: Vec<Output>,
}

/// A block of the chain.
#[derive(Clone, Debug)]
pub struct Block {
    pub index: u32,
    pub timestamp: u128,
    pub hash: Vec<u8>,
    pub prev_block_hash: Vec<u8>,
    pub nonce: u64,
    pub transactions: Vec<Transaction>,
}

/// The bytes of an output: its address as UTF-8, then its amount and its
/// timestamp, both big-endian.
pub open spec fn output_bytes(o: Output) -> Seq<u8> {
    vstd::utf8::encode_utf8(o.to_addr@) + be_bytes(o.value_bits as nat, 8) + be_bytes(
        o.timestamp as nat,
        16,
    )
}

/// The bytes of a list of outputs, one after another.
pub open spec fn outputs_bytes(s: Seq<Output>) -> Seq<u8>
    decreases s.len(),
{
    if s.len() == 0 {
        Seq::empty()
    } else {
        outputs_bytes(s.drop_last()) + output_bytes(s.last())
    }
}

/// The bytes of a transaction: its inputs, then its outputs.
pub open spec fn transaction_bytes(t: Transaction) -> Seq<u8> {
    outputs_bytes(t.inputs@) + outputs_bytes(t.outputs@)
}

/// The bytes of a list of transactions, one after another.
pub open spec fn transactions_bytes(s: Seq<Transaction>) -> Seq<u8>
    decreases s.len(),
{
    if s.len() == 0 {
        Seq::empty()
    } else {
        transactions_bytes(s.drop_last()) + transaction_bytes(s.last())
    }
}

/// The bytes that a block's hash covers: index, timestamp, previous hash,
/// nonce and transactions. Everything but the stored hash.
pub open spec fn block_bytes(b: Block) -> Seq<u8> {
    le_bytes(b.index as nat, 4) + le_bytes(b.timestamp as nat, 16) + b.prev_block_hash@ + le_bytes(
        b.nonce as nat,
        8,
    ) + transactions_bytes(b.transactions@)
}

/// The hash a block should carry.
pub open spec fn block_digest(b: Block) -> Seq<u8> {
    sha256_of(block_bytes(b))
}

/// The digest that `b` would carry with nonce `n`.
pub open spec fn nonce_digest(b: Block, n: u64) -> Seq<u8> {
    block_digest(Block { nonce: n, ..b })
}

/// Whether a 32-byte hash is below the difficulty, reading bytes 16 to 31 as
/// a little-endian number.
pub open spec fn meets_difficulty(hash: Seq<u8>, difficulty: u128) -> bool {
    difficulty > le_int(hash.subrange(16, 32))
}

/// A record with a byte layout, hashed with SHA-256.
pub trait Hashable {
    /// The bytes that the hash covers.
    fn bytes(&self) -> Vec<u8>;

    /// The SHA-256 digest of the bytes.
    fn hash(&self) -> (r: Vec<u8>)
        ensures
            r@.len() == 32,
    {
        let b = self.bytes();
        sha256(b.as_slice())
    }
}

impl Hashable for Output {
    fn bytes(&self) -> Vec<u8> {
        Output::bytes(self)
    }
}

impl Hashable for Transaction {
    fn bytes(&self) -> Vec<u8> {
        Transaction::bytes(self)
    }
}

impl Hashable for Block {
    fn bytes(&self) -> Vec<u8> {
        Block::bytes(self)
    }
}

/// Whether `hash` satisfies the proof-of-work `difficulty`.
pub fn check_blockhash(hash: &Vec<u8>, difficulty: u128) -> (r: bool)
    requires
        hash@.len() >= 32,
    ensures
        r == meets_difficulty(hash@, difficulty),
{
    difficulty > difficulty_bytes_as_u128(hash)
}

impl Output {
    /// The bytes of this output.
    pub fn bytes(&self) -> (r: Vec<u8>)
        ensures
            r@ == output_bytes(*self),
    {
        let mut out: Vec<u8> = Vec::new();
        push_all(&mut out, self.to_addr.as_str().as_bytes());
        let value = u64_bytes(&self.value_bits);
        push_reversed(&mut out, value.as_slice());
        let ts = u128_bytes(&self.timestamp);
        push_reversed(&mut out, ts.as_slice());
        out
    }

    /// The digest of this output's bytes.
    pub fn hash(&self) -> (r: Vec<u8>)
        ensures
            r@ == sha256_of(output_bytes(*self)),
            r@.len() == 32,
    {
        let b = self.bytes();
        sha256(b.as_slice())
    }
}

/// Appends the bytes of each output of `s` to `out`.
fn push_outputs(out: &mut Vec<u8>, s: &Vec<Output>)
    ensures
        final(out)@ == old(out)@ + outputs_bytes(s@),
{
    let mut i: usize = 0;
    while i < s.len()
        invariant
            i <= s@.len(),
            out@ == old(out)@ + outputs_bytes(s@.subrange(0, i as int)),
        decreases s@.len() - i,
    {
        let b = s[i].bytes();
        push_all(out, b.as_slice());
        i = i + 1;
        assert(s@.subrange(0, i as int).drop_last() =~= s@.subrange(0, i - 1 as int));
    }
    assert(s@.subrange(0, s@.len() as int) =~= s@);
}

impl Transaction {
    /// The bytes of this transaction.
    pub fn bytes(&self) -> (r: Vec<u8>)
        ensures
            r@ == transaction_bytes(*self),
    {
        let mut out: Vec<u8> = Vec::new();
        push_outputs(&mut out, &self.inputs);
        push_outputs(&mut out, &self.outputs);
        out
    }

    /// The digest of this transaction's bytes.
    pub fn hash(&self) -> (r: Vec<u8>)
        ensures
            r@ == sha256_of(transaction_bytes(*self)),
            r@.len() == 32,
    {
        let b = self.bytes();
        sha256(b.as_slice())
    }

    /// The distinct digests of the inputs.
    pub fn input_hashes(&self) -> (r: Vec<Vec<u8>>)
        ensures
            is_digest_set(r@, self.inputs@),
    {
        output_hashes_of(&self.inputs)
    }

    /// The distinct digests of the outputs.
    pub fn output_hashes(&self) -> (r: Vec<Vec<u8>>)
        ensures
            is_digest_set(r@, self.outputs@),
    {
        output_hashes_of(&self.outputs)
    }
}

/// The digest of an output's bytes.
pub open spec fn output_digest(o: Output) -> Seq<u8> {
    sha256_of(output_bytes(o))
}

/// The byte sequences of a list of byte vectors.
pub open spec fn byte_views(r: Seq<Vec<u8>>) -> Seq<Seq<u8>> {
    r.map_values(|v: Vec<u8>| v@)
}

/// `r` holds, once each, exactly the digests of the outputs in `s`.
pub open spec fn is_digest_set(r: Seq<Vec<u8>>, s: Seq<Output>) -> bool {
    &&& byte_views(r).no_duplicates()
    &&& forall|h: Seq<u8>|
        #[trigger] byte_views(r).contains(h) <==> exists|j: int|
            0 <= j < s.len() && #[trigger] output_digest(s[j]) == h
}

fn contains_bytes(r: &Vec<Vec<u8>>, h: &Vec<u8>) -> (b: bool)
    ensures
        b == byte_views(r@).contains(h@),
{
    let mut i: usize = 0;
    while i < r.len()
        invariant
            i <= r@.len(),
            forall|k: int| 0 <= k < i ==> r@[k]@ != h@,
        decreases r@.len() - i,
    {
        if same_bytes(&r[i], h) {
            assert(byte_views(r@)[i as int] == h@);
            return true;
        }
        i = i + 1;
    }
    assert(!byte_views(r@).contains(h@)) by {
        if byte_views(r@).contains(h@) {
            let k = choose|k: int| 0 <= k < byte_views(r@).len() && byte_views(r@)[k] == h@;
            assert(r@[k]@ == h@);
        }
    }
    false
}

fn output_hashes_of(s: &Vec<Output>) -> (r: Vec<Vec<u8>>)
    ensures
        is_digest_set(r@, s@),
{
    let mut r: Vec<Vec<u8>> = Vec::new();
    let mut i: usize = 0;
    assert(byte_views(r@) =~= Seq::<Seq<u8>>::empty());
    while i < s.len()
        invariant
            i <= s@.len(),
            byte_views(r@).no_duplicates(),
            forall|h: Seq<u8>|
                #[trigger] byte_views(r@).contains(h) <==> exists|j: int|
                    0 <= j < i && #[trigger] output_digest(s@[j]) == h,
        decreases s@.len() - i,
    {
        let h = s[i].hash();
        let ghost before = r@;
        if !contains_bytes(&r, &h) {
            r.push(h);
            assert(byte_views(r@) =~= byte_views(before).push(h@));
        }
        proof {
            assert(output_digest(s@[i as int]) == h@);
            assert(byte_views(r@).contains(h@));
            assert forall|x: Seq<u8>| x != h@ implies (byte_views(r@).contains(x)
                <==> byte_views(before).contains(x)) by {}
            assert forall|x: Seq<u8>|
                #[trigger] byte_views(r@).contains(x) <==> exists|j: int|
                    0 <= j < i + 1 && #[trigger] output_digest(s@[j]) == x by {
                if x == h@ {
                    assert(output_digest(s@[i as int]) == x);
                }
                if exists|j: int| 0 <= j < i + 1 && #[trigger] output_digest(s@[j]) == x {
                    let j = choose|j: int| 0 <= j < i + 1 && #[trigger] output_digest(s@[j]) == x;
                    if j < i {
                        assert(byte_views(before).contains(x));
                    }
                }
                if byte_views(before).contains(x) {
                    let j = choose|j: int| 0 <= j < i && #[trigger] output_digest(s@[j]) == x;
                    assert(0 <= j < i + 1);
                }
            }
        }
        i = i + 1;
    }
    r
}

impl Block {
    /// An unmined block: its hash is 32 zero bytes and its nonce 0.
    pub fn new(index: u32, timestamp: u128, prev_block_hash: Vec<u8>, transactions: Vec<Transaction>) -> (r: Self)
        ensures
            r.index == index,
            r.timestamp == timestamp,
            r.hash@ == Seq::new(32, |i: int| 0u8),
            r.prev_block_hash == prev_block_hash,
            r.nonce == 0,
            r.transactions == transactions,
    {
        let hash = vec![0u8; 32];
        Block { index, timestamp, hash, prev_block_hash, nonce: 0, transactions }
    }

    /// The bytes that this block's hash covers.
    pub fn bytes(&self) -> (r: Vec<u8>)
        ensures
            r@ == block_bytes(*self),
    {
        let mut out: Vec<u8> = Vec::new();
        let index = u32_bytes(&self.index);
        push_all(&mut out, index.as_slice());
        let ts = u128_bytes(&self.timestamp);
        push_all(&mut out, ts.as_slice());
        push_all(&mut out, self.prev_block_hash.as_slice());
        let nonce = u64_bytes(&self.nonce);
        push_all(&mut out, nonce.as_slice());
        let mut i: usize = 0;
        let ghost head = out@;
        while i < self.transactions.len()
            invariant
                i <= self.transactions@.len(),
                out@ == head + transactions_bytes(self.transactions@.subrange(0, i as int)),
            decreases self.transactions@.len() - i,
        {
            let b = self.transactions[i].bytes();
            push_all(&mut out, b.as_slice());
            i = i + 1;
            assert(self.transactions@.subrange(0, i as int).drop_last() =~= self.transactions@.subrange(0, i - 1 as int));
        }
        assert(self.transactions@.subrange(0, self.transactions@.len() as int) =~= self.transactions@);
        out
    }

    /// The digest of this block's bytes.
    pub fn hash(&self) -> (r: Vec<u8>)
        ensures
            r@ == block_digest(*self),
            r@.len() == 32,
    {
        let b = self.bytes();
        sha256(b.as_slice())
    }

    /// Tries nonces from 0 upwards until the block's digest meets
    /// `difficulty`, and stores the first such nonce and its digest. Returns
    /// whether one was found; if none was, the nonce is left at the last one
    /// tried.
    pub fn mine(&mut self, difficulty: u128) -> (found: bool)
        ensures
            final(self).index == old(self).index,
            final(self).timestamp == old(self).timestamp,
            final(self).prev_block_hash == old(self).prev_block_hash,
            final(self).transactions == old(self).transactions,
            found ==> final(self).hash@ == block_digest(*final(self)) && meets_difficulty(
                final(self).hash@,
                difficulty,
            ),
            !found ==> final(self).hash == old(self).hash,
            !found ==> forall|n: u64|
                n < u64::MAX ==> !meets_difficulty(#[trigger] nonce_digest(*old(self), n), difficulty),
            found ==> final(self).nonce < u64::MAX && forall|n: u64|
                n < final(self).nonce ==> !meets_difficulty(
                    #[trigger] nonce_digest(*old(self), n),
                    difficulty,
                ),
    {
        let mut nonce_attempt: u64 = 0;
        while nonce_attempt < u64::MAX
            invariant
                self.index == old(self).index,
                self.timestamp == old(self).timestamp,
                self.prev_block_hash == old(self).prev_block_hash,
                self.transactions == old(self).transactions,
                self.hash == old(self).hash,
                forall|n: u64|
                    n < nonce_attempt ==> !meets_difficulty(
                        #[trigger] nonce_digest(*old(self), n),
                        difficulty,
                    ),
            decreases u64::MAX - nonce_attempt,
        {
            self.nonce = nonce_attempt;
            let hash = self.hash();
            assert(*self == Block { nonce: nonce_attempt, ..*old(self) });
            if check_blockhash(&hash, difficulty) {
                self.hash = hash;
                return true;
            }
            nonce_attempt = nonce_attempt + 1;
        }
        false
    }
}

} // verus!
