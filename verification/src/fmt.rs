//! Decimal rendering of the signed integers that distribution parameters
//! are made of, for human-readable descriptions.
use vstd::prelude::*;

use crate::hex::push_digit_char;
use crate::hex::spec_hex_char;

verus! {

/// The decimal digits of a natural number, most significant first.
pub open spec fn spec_dec_digits(n: nat) -> Seq<char>
    decreases n,
{
    if n < 10 {
        seq![spec_hex_char(n as u8)]
    } else {
        spec_dec_digits(n / 10).push(spec_hex_char((n % 10) as u8))
    }
}

/// The decimal rendering of a signed 64-bit value, with a leading minus sign
/// when negative.
pub open spec fn spec_dec_i64(v: i64) -> Seq<char> {
    if v < 0 {
        seq!['-'] + spec_dec_digits((-(v as int)) as nat)
    } else {
        spec_dec_digits(v as nat)
    }
}

/// Renders the decimal digits of `m` at the end of `s`.
fn push_dec_digits(s: &mut String, m: u64)
    ensures
        final(s)@ == old(s)@ + spec_dec_digits(m as nat),
{
    let ghost digits = spec_dec_digits(m as nat);
    let mut rest: u64 = m;
    let mut reversed: Vec<u8> = Vec::new();
    proof {
        assert(digits.take(digits.len() as int) =~= digits);
    }
    while rest >= 10
        invariant
            digits == spec_dec_digits(m as nat),
            digits.len() > reversed@.len(),
            digits.take(digits.len() - reversed@.len()) == spec_dec_digits(rest as nat),
            forall|k: int|
                0 <= k < reversed@.len() ==> digits[digits.len() - 1 - k] == spec_hex_char(
                    #[trigger] reversed@[k],
                ),
            forall|k: int| 0 <= k < reversed@.len() ==> reversed@[k] < 10,
        decreases rest,
    {
        let digit = (rest % 10) as u8;
        let next = rest / 10;
        proof {
            let sub = spec_dec_digits(next as nat);
            let cur = spec_dec_digits(rest as nat);
            let pre = digits.len() - reversed@.len();
            assert(cur == sub.push(spec_hex_char(digit)));
            assert(cur.len() == sub.len() + 1);
            assert(digits[pre - 1] == cur[pre - 1 - 0]);
            assert(cur[sub.len() as int] == spec_hex_char(digit));
            assert(digits.take(pre - 1) =~= sub) by {
                assert forall|j: int| 0 <= j < pre - 1 implies digits[j] == sub[j] by {
                    assert(digits[j] == digits.take(pre)[j]);
                    assert(cur[j] == sub[j]);
                }
            }
        }
        reversed.push(digit);
        rest = next;
    }
    let ghost pushed = old(s)@;
    let ghost tail_len = reversed@.len() as int;
    proof {
        assert(digits.len() - tail_len == 1) by {
            assert(digits.take(digits.len() - tail_len) == spec_dec_digits(rest as nat));
            assert(spec_dec_digits(rest as nat).len() == 1);
            assert(digits.take(digits.len() - tail_len).len() == digits.len() - tail_len);
        }
        assert(digits[0] == spec_hex_char((rest % 10) as u8)) by {
            assert(rest % 10 == rest);
            assert(digits.take(1).len() == 1);
            assert(digits.take(1)[0] == digits[0]);
            assert(spec_dec_digits(rest as nat) == seq![spec_hex_char(rest as u8)]);
        }
    }
    push_digit_char(s, (rest % 10) as u8);
    proof {
        assert(s@ =~= pushed + digits.take(1));
    }
    let mut i: usize = reversed.len();
    while i > 0
        invariant
            0 <= i <= reversed@.len(),
            reversed@.len() as int == tail_len,
            digits.len() == 1 + tail_len,
            forall|k: int|
                0 <= k < tail_len ==> digits[digits.len() - 1 - k] == spec_hex_char(
                    #[trigger] reversed@[k],
                ),
            forall|k: int| 0 <= k < tail_len ==> reversed@[k] < 10,
            s@ == pushed + digits.take(1 + tail_len - i),
        decreases i,
    {
        i -= 1;
        proof {
            assert(digits[digits.len() - 1 - i] == spec_hex_char(reversed@[i as int]));
        }
        push_digit_char(s, reversed[i]);
        proof {
            assert(s@ =~= pushed + digits.take(1 + tail_len - i));
        }
    }
    proof {
        assert(digits.take(1 + tail_len) =~= digits);
    }
}

/// Renders a signed 64-bit value in decimal at the end of `s`.
pub fn push_dec_i64(s: &mut String, v: i64)
    ensures
        final(s)@ == old(s)@ + spec_dec_i64(v),
{
    if v < 0 {
        proof {
            reveal_strlit("-");
        }
        s.append("-");
        let magnitude: u64 = #[verifier::truncate] ((-(v as i128)) as u64);
        push_dec_digits(s, magnitude);
        assert(s@ =~= old(s)@ + spec_dec_i64(v));
    } else {
        push_dec_digits(s, v as u64);
    }
}

} // verus!
