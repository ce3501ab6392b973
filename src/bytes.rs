//! Fixed-width little-endian encodings of integers and their inverse.
use vstd::prelude::*;

verus! {

/// The `n` least significant base-256 digits of `v`, least significant first.
pub open spec fn le_bytes(v: nat, n: nat) -> Seq<u8>
    decreases n,
{
    if n == 0 {
        Seq::empty()
    } else {
        seq![(v % 256) as u8] + le_bytes(v / 256, (n - 1) as nat)
    }
}

/// The number whose little-endian base-256 digits are `s`.
pub open spec fn le_int(s: Seq<u8>) -> nat
    decreases s.len(),
{
    if s.len() == 0 {
        0
    } else {
        s[0] as nat + 256 * le_int(s.subrange(1, s.len() as int))
    }
}

/// `256` raised to the power `n`.
pub open spec fn pow256(n: nat) -> nat
    decreases n,
{
    if n == 0 {
        1
    } else {
        256 * pow256((n - 1) as nat)
    }
}

/// The value of a digit sequence is below `256^len`.
pub proof fn lemma_le_int_bound(s: Seq<u8>)
    ensures
        le_int(s) < pow256(s.len()),
    decreases s.len(),
{
    if s.len() > 0 {
        let rest = s.subrange(1, s.len() as int);
        lemma_le_int_bound(rest);
        assert(le_int(s) < pow256(s.len())) by (nonlinear_arith)
            requires
                le_int(s) == s[0] as nat + 256 * le_int(rest),
                le_int(rest) + 1 <= pow256(rest.len()),
                s[0] < 256,
                pow256(s.len()) == 256 * pow256(rest.len()),
        ;
    }
}

/// Decoding the `n` little-endian bytes of `v` gives `v` back, when `v` fits in them.
pub proof fn lemma_le_round_trip(v: nat, n: nat)
    requires
        v < pow256(n),
    ensures
        le_bytes(v, n).len() == n,
        le_int(le_bytes(v, n)) == v,
    decreases n,
{
    if n > 0 {
        let m = (n - 1) as nat;
        assert(v / 256 < pow256(m)) by (nonlinear_arith)
            requires
                v < 256 * pow256(m),
        ;
        lemma_le_round_trip(v / 256, m);
        let s = le_bytes(v, n);
        assert(s.subrange(1, s.len() as int) =~= le_bytes(v / 256, m));
        assert(v == v % 256 + 256 * (v / 256)) by (nonlinear_arith);
    }
}

/// The four bytes of `u`, least significant first.
pub fn u32_bytes(u: &u32) -> (r: [u8; 4])
    ensures
        r@ == le_bytes(*u as nat, 4),
{
    let x0: u32 = *u;
    let x1: u32 = x0 / 256;
    let x2: u32 = x1 / 256;
    let x3: u32 = x2 / 256;
    let r = [(x0 % 256) as u8, (x1 % 256) as u8, (x2 % 256) as u8, (x3 % 256) as u8];
    proof {
        reveal_with_fuel(le_bytes, 5);
        assert(r@ =~= le_bytes(*u as nat, 4));
    }
    r
}

/// The eight bytes of `u`, least significant first.
pub fn u64_bytes(u: &u64) -> (r: [u8; 8])
    ensures
        r@ == le_bytes(*u as nat, 8),
{
    let x0: u64 = *u;
    let x1: u64 = x0 / 256;
    let x2: u64 = x1 / 256;
    let x3: u64 = x2 / 256;
    let x4: u64 = x3 / 256;
    let x5: u64 = x4 / 256;
    let x6: u64 = x5 / 256;
    let x7: u64 = x6 / 256;
    let r = [
        (x0 % 256) as u8,
        (x1 % 256) as u8,
        (x2 % 256) as u8,
        (x3 % 256) as u8,
        (x4 % 256) as u8,
        (x5 % 256) as u8,
        (x6 % 256) as u8,
        (x7 % 256) as u8,
    ];
    proof {
        reveal_with_fuel(le_bytes, 9);
        assert(r@ =~= le_bytes(*u as nat, 8));
    }
    r
}

/// The sixteen bytes of `u`, least significant first.
pub fn u128_bytes(u: &u128) -> (r: [u8; 16])
    ensures
        r@ == le_bytes(*u as nat, 16),
{
    let x0: u128 = *u;
    let x1: u128 = x0 / 256;
    let x2: u128 = x1 / 256;
    let x3: u128 = x2 / 256;
    let x4: u128 = x3 / 256;
    let x5: u128 = x4 / 256;
    let x6: u128 = x5 / 256;
    let x7: u128 = x6 / 256;
    let x8: u128 = x7 / 256;
    let x9: u128 = x8 / 256;
    let x10: u128 = x9 / 256;
    let x11: u128 = x10 / 256;
    let x12: u128 = x11 / 256;
    let x13: u128 = x12 / 256;
    let x14: u128 = x13 / 256;
    let x15: u128 = x14 / 256;
    let r = [
        (x0 % 256) as u8,
        (x1 % 256) as u8,
        (x2 % 256) as u8,
        (x3 % 256) as u8,
        (x4 % 256) as u8,
        (x5 % 256) as u8,
        (x6 % 256) as u8,
        (x7 % 256) as u8,
        (x8 % 256) as u8,
        (x9 % 256) as u8,
        (x10 % 256) as u8,
        (x11 % 256) as u8,
        (x12 % 256) as u8,
        (x13 % 256) as u8,
        (x14 % 256) as u8,
        (x15 % 256) as u8,
    ];
    proof {
        reveal_with_fuel(le_bytes, 17);
        assert(r@ =~= le_bytes(*u as nat, 16));
    }
    r
}

/// The value of bytes 16 to 31 of a 32-byte digest, read least significant
/// byte first: the part of a block hash compared against the difficulty.
pub fn difficulty_bytes_as_u128(v: &Vec<u8>) -> (r: u128)
    requires
        v@.len() >= 32,
    ensures
        r == le_int(v@.subrange(16, 32)),
{
    let mut r: u128 = 0;
    let mut i: usize = 32;
    proof {
        assert(v@.subrange(32, 32).len() == 0);
    }
    while i > 16
        invariant
            16 <= i <= 32,
            v@.len() >= 32,
            r == le_int(v@.subrange(i as int, 32)),
        decreases i,
    {
        let ghost tail = v@.subrange(i as int, 32);
        proof {
            lemma_le_int_bound(tail);
            reveal_with_fuel(pow256, 17);
            lemma_pow256_mono((32 - i) as nat, 15);
        }
        i = i - 1;
        r = (v[i] as u128) + 256 * r;
        proof {
            assert(v@.subrange(i as int, 32).subrange(1, 32 - i as int) =~= tail);
        }
    }
    r
}

/// `pow256` grows with its exponent.
proof fn lemma_pow256_mono(a: nat, b: nat)
    requires
        a <= b,
    ensures
        pow256(a) <= pow256(b),
    decreases b,
{
    if a < b {
        lemma_pow256_mono(a, (b - 1) as nat);
        assert(pow256(b) == 256 * pow256((b - 1) as nat));
    }
}

} // verus!
