//! Number formatting and joining of message texts.
use vstd::prelude::*;
use vstd::string::StringExecFns;

verus! {

/// The digit character for `d` (below 16), uppercase for 10 to 15.
pub open spec fn digit_char(d: nat) -> char {
    if d < 10 {
        ('0' as u32 + d) as char
    } else {
        ('A' as u32 + (d - 10)) as char
    }
}

/// `n` written in base `b` (2 to 16), without leading zeros; "0" for zero.
pub open spec fn digits(n: nat, b: nat) -> Seq<char>
    decreases n,
    via digits_decreases
{
    if b < 2 || n < b {
        seq![digit_char(n % 16)]
    } else {
        digits(n / b, b).push(digit_char(n % b))
    }
}

#[via_fn]
proof fn digits_decreases(n: nat, b: nat) {
    if !(b < 2 || n < b) {
        assert(n / b < n) by (nonlinear_arith)
            requires
                b >= 2,
                n >= b,
        ;
    }
}

/// The digit character for `d` as a one-character text.
fn digit_text(d: u128) -> (r: String)
    requires
        d < 16,
    ensures
        r@ == seq![digit_char(d as nat)],
{
    proof {
        reveal_strlit("0");
        reveal_strlit("1");
        reveal_strlit("2");
        reveal_strlit("3");
        reveal_strlit("4");
        reveal_strlit("5");
        reveal_strlit("6");
        reveal_strlit("7");
        reveal_strlit("8");
        reveal_strlit("9");
        reveal_strlit("A");
        reveal_strlit("B");
        reveal_strlit("C");
        reveal_strlit("D");
        reveal_strlit("E");
        reveal_strlit("F");
    }
    match d {
        0 => "0".to_owned(),
        1 => "1".to_owned(),
        2 => "2".to_owned(),
        3 => "3".to_owned(),
        4 => "4".to_owned(),
        5 => "5".to_owned(),
        6 => "6".to_owned(),
        7 => "7".to_owned(),
        8 => "8".to_owned(),
        9 => "9".to_owned(),
        10 => "A".to_owned(),
        11 => "B".to_owned(),
        12 => "C".to_owned(),
        13 => "D".to_owned(),
        14 => "E".to_owned(),
        _ => "F".to_owned(),
    }
}

/// `n` written in base `b`, as `digits` states.
pub fn digits_text(n: u128, b: u128) -> (r: String)
    requires
        2 <= b <= 16,
    ensures
        r@ == digits(n as nat, b as nat),
    decreases n,
{
    if n < b {
        proof {
            assert(n % 16 == n);
        }
        digit_text(n)
    } else {
        proof {
            assert(n / b < n) by (nonlinear_arith)
                requires
                    b >= 2,
                    n >= b,
            ;
        }
        let head = digits_text(n / b, b);
        let last = digit_text(n % b);
        join_text(head.as_str(), last.as_str())
    }
}

/// `n` in decimal.
pub(crate) fn decimal_text(n: u64) -> (r: String)
    ensures
        r@ == digits(n as nat, 10),
{
    digits_text(n as u128, 10)
}

/// `n` as "0x" and uppercase hexadecimal digits.
pub fn upper_hex_text(n: u128) -> (r: String)
    ensures
        r@ == seq!['0', 'x'] + digits(n as nat, 16),
{
    let d = digits_text(n, 16);
    let r = join_text("0x", d.as_str());
    proof {
        reveal_strlit("0x");
    }
    r
}

/// The two texts one after the other.
pub(crate) fn join_text(a: &str, b: &str) -> (r: String)
    ensures
        r@ == a@ + b@,
{
    let s = a.to_owned();
    s.concat(b)
}

} // verus!
