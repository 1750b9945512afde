//! Base-10 reading and writing of unsigned integers: the interval argument
//! is read with `parse_u64`, and status codes are written with
//! `u16_to_decimal`.

use vstd::prelude::*;

verus! {

/// The ten ASCII digit characters.
pub open spec fn is_digit(c: char) -> bool {
    '0' <= c && c <= '9'
}

/// The numeric value of a digit character.
pub open spec fn digit_val(c: char) -> nat {
    (c as nat - '0' as nat) as nat
}

/// The value of a sequence of digit characters, read in base 10.
pub open spec fn dec_val(s: Seq<char>) -> nat
    decreases s.len(),
{
    if s.len() == 0 {
        0
    } else {
        dec_val(s.drop_last()) * 10 + digit_val(s.last())
    }
}

/// The strings `parse_u64` accepts: at least one digit, nothing but digits
/// (no sign, no decimal point), and a value that fits in a `u64`.
pub open spec fn is_u64_decimal(s: Seq<char>) -> bool {
    &&& s.len() > 0
    &&& forall|i: int| 0 <= i < s.len() ==> is_digit(s[i])
    &&& dec_val(s) <= u64::MAX
}

/// The value of a digit string never shrinks as digits are appended.
proof fn lemma_dec_val_prefix_le(s: Seq<char>, i: int, j: int)
    requires
        0 <= i <= j <= s.len(),
    ensures
        dec_val(s.take(i)) <= dec_val(s.take(j)),
    decreases j - i,
{
    if i < j {
        lemma_dec_val_prefix_le(s, i, j - 1);
        assert(s.take(j).drop_last() =~= s.take(j - 1));
        assert(dec_val(s.take(j)) == dec_val(s.take(j - 1)) * 10 + digit_val(s.take(j).last()));
    }
}

/// Reads a non-negative base-10 integer: digits only, no sign, no decimal
/// point, value at most `u64::MAX`; anything else is `None`.
pub fn parse_u64(s: &str) -> (r: Option<u64>)
    ensures
        match r {
            Some(v) => is_u64_decimal(s@) && v == dec_val(s@),
            None => !is_u64_decimal(s@),
        },
{
    let n = s.unicode_len();
    if n == 0 {
        return None;
    }
    let mut val: u64 = 0;
    let mut i: usize = 0;
    while i < n
        invariant
            i <= n,
            n == s@.len(),
            forall|j: int| 0 <= j < i ==> is_digit(s@[j]),
            val == dec_val(s@.take(i as int)),
        decreases n - i,
    {
        let c = s.get_char(i);
        if c < '0' || c > '9' {
            return None;
        }
        let d: u64 = (c as u32 - 48) as u64;
        proof {
            assert(s@.take(i + 1).drop_last() =~= s@.take(i as int));
            assert(s@.take(i + 1).last() == c);
        }
        let scaled = match val.checked_mul(10) {
            Some(v) => v,
            None => {
                proof {
                    lemma_dec_val_prefix_le(s@, i + 1, n as int);
                    assert(s@.take(n as int) =~= s@);
                }
                return None;
            }
        };
        val = match scaled.checked_add(d) {
            Some(v) => v,
            None => {
                proof {
                    lemma_dec_val_prefix_le(s@, i + 1, n as int);
                    assert(s@.take(n as int) =~= s@);
                }
                return None;
            }
        };
        i += 1;
    }
    proof {
        assert(s@.take(n as int) =~= s@);
    }
    Some(val)
}

/// The digit character for a value below ten.
pub open spec fn digit_char(d: nat) -> char {
    if d == 0 {
        '0'
    } else if d == 1 {
        '1'
    } else if d == 2 {
        '2'
    } else if d == 3 {
        '3'
    } else if d == 4 {
        '4'
    } else if d == 5 {
        '5'
    } else if d == 6 {
        '6'
    } else if d == 7 {
        '7'
    } else if d == 8 {
        '8'
    } else {
        '9'
    }
}

/// The base-10 representation of `n`, most significant digit first, with no
/// leading zero except for `n == 0` itself.
pub open spec fn dec_rep(n: nat) -> Seq<char>
    decreases n,
{
    if n < 10 {
        seq![digit_char(n)]
    } else {
        dec_rep(n / 10) + seq![digit_char(n % 10)]
    }
}

/// The one-character string for a digit.
fn digit_str(d: u16) -> (r: &'static str)
    requires
        d < 10,
    ensures
        r@ == seq![digit_char(d as nat)],
{
    proof {
        reveal_strlit("0");
        reveal_strlit("1");
        reveal_strlit("2");
        reveal_strlit("3");
        reveal_strlit("4");
        reveal_strlit("5");
        reveal_strlit("6");
        reveal_strlit("7");
        reveal_strlit("8");
        reveal_strlit("9");
    }
    let r = if d == 0 {
        "0"
    } else if d == 1 {
        "1"
    } else if d == 2 {
        "2"
    } else if d == 3 {
        "3"
    } else if d == 4 {
        "4"
    } else if d == 5 {
        "5"
    } else if d == 6 {
        "6"
    } else if d == 7 {
        "7"
    } else if d == 8 {
        "8"
    } else {
        "9"
    };
    proof {
        assert(r@ =~= seq![digit_char(d as nat)]);
    }
    r
}

/// Writes `n` in base 10, most significant digit first.
pub fn u16_to_decimal(n: u16) -> (r: String)
    ensures
        r@ == dec_rep(n as nat),
    decreases n,
{
    if n < 10 {
        String::from_str(digit_str(n))
    } else {
        let mut s = u16_to_decimal(n / 10);
        s.append(digit_str(n % 10));
        s
    }
}

} // verus!
