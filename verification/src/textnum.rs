//! Decimal text: formatting integers as decimal strings and reading them
//! back, with exact specifications of both directions.

use vstd::prelude::*;

verus! {

/// The character for a single decimal digit value.
pub open spec fn dec_digit_char(d: nat) -> char {
    if d == 0 {
        '0'
    } else if d == 1 {
        '1'
    } else if d == 2 {
        '2'
    } else if d == 3 {
        '3'
    } else if d == 4 {
        '4'
    } else if d == 5 {
        '5'
    } else if d == 6 {
        '6'
    } else if d == 7 {
        '7'
    } else if d == 8 {
        '8'
    } else {
        '9'
    }
}

/// Decimal text of a natural number, most significant digit first,
/// without leading zeros (a single '0' for zero).
pub open spec fn dec_text(n: nat) -> Seq<char>
    decreases n,
{
    if n < 10 {
        seq![dec_digit_char(n)]
    } else {
        dec_text(n / 10) + seq![dec_digit_char(n % 10)]
    }
}

/// Decimal text of an integer, with a leading '-' when negative.
pub open spec fn int_text(v: int) -> Seq<char> {
    if v < 0 {
        seq!['-'] + dec_text((-v) as nat)
    } else {
        dec_text(v as nat)
    }
}

/// Text of a truth value: "true" or "false".
pub open spec fn bool_text(b: bool) -> Seq<char> {
    if b {
        seq!['t', 'r', 'u', 'e']
    } else {
        seq!['f', 'a', 'l', 's', 'e']
    }
}

fn digit_str(d: u64) -> (r: &'static str)
    requires
        d < 10,
    ensures
        r@ == seq![dec_digit_char(d as nat)],
{
    if d == 0 {
        proof { reveal_strlit("0"); }
        assert("0"@ =~= seq![dec_digit_char(0)]);
        "0"
    } else if d == 1 {
        proof { reveal_strlit("1"); }
        assert("1"@ =~= seq![dec_digit_char(1)]);
        "1"
    } else if d == 2 {
        proof { reveal_strlit("2"); }
        assert("2"@ =~= seq![dec_digit_char(2)]);
        "2"
    } else if d == 3 {
        proof { reveal_strlit("3"); }
        assert("3"@ =~= seq![dec_digit_char(3)]);
        "3"
    } else if d == 4 {
        proof { reveal_strlit("4"); }
        assert("4"@ =~= seq![dec_digit_char(4)]);
        "4"
    } else if d == 5 {
        proof { reveal_strlit("5"); }
        assert("5"@ =~= seq![dec_digit_char(5)]);
        "5"
    } else if d == 6 {
        proof { reveal_strlit("6"); }
        assert("6"@ =~= seq![dec_digit_char(6)]);
        "6"
    } else if d == 7 {
        proof { reveal_strlit("7"); }
        assert("7"@ =~= seq![dec_digit_char(7)]);
        "7"
    } else if d == 8 {
        proof { reveal_strlit("8"); }
        assert("8"@ =~= seq![dec_digit_char(8)]);
        "8"
    } else {
        proof { reveal_strlit("9"); }
        assert("9"@ =~= seq![dec_digit_char(9)]);
        "9"
    }
}

/// Render a natural number as decimal text.
pub fn u64_text(n: u64) -> (r: String)
    ensures
        r@ == dec_text(n as nat),
    decreases n,
{
    if n < 10 {
        digit_str(n).to_owned()
    } else {
        let mut s = u64_text(n / 10);
        s.append(digit_str(n % 10));
        s
    }
}

/// Render a signed number as decimal text, with '-' when negative.
pub fn i64_text(v: i64) -> (r: String)
    ensures
        r@ == int_text(v as int),
{
    if v >= 0 {
        u64_text(v as u64)
    } else {
        let m: u64 = if v == i64::MIN {
            9223372036854775808u64
        } else {
            (-v) as u64
        };
        proof { reveal_strlit("-"); }
        let mut s = "-".to_owned();
        assert(s@ =~= seq!['-']);
        s.append(u64_text(m).as_str());
        proof {
            assert(m as nat == (-(v as int)) as nat);
        }
        s
    }
}

/// Render a truth value as "true" or "false".
pub fn bool_to_text(b: bool) -> (r: String)
    ensures
        r@ == bool_text(b),
{
    if b {
        proof { reveal_strlit("true"); }
        let s = "true".to_owned();
        assert(s@ =~= bool_text(true));
        s
    } else {
        proof { reveal_strlit("false"); }
        let s = "false".to_owned();
        assert(s@ =~= bool_text(false));
        s
    }
}

/// Append one character to a text buffer.
///
/// Relies on `String::push`: the result is the old contents followed by
/// exactly the given character.
#[verifier::external_body]
pub(crate) fn push_char(s: &mut String, c: char)
    ensures
        final(s)@ == old(s)@ + seq![c],
{
    s.push(c)
}

/// Whether a character is a decimal digit.
pub open spec fn is_dec_digit(c: char) -> bool {
    '0' <= c && c <= '9'
}

/// The value of a decimal digit character.
pub open spec fn dec_digit_val(c: char) -> nat {
    ((c as u32) - ('0' as u32)) as nat
}

/// Whether every character of the text is a decimal digit.
pub open spec fn all_dec_digits(s: Seq<char>) -> bool {
    forall|i: int| 0 <= i < s.len() ==> is_dec_digit(s[i])
}

/// The numeric value of digit text, most significant digit first.
pub open spec fn digits_val(s: Seq<char>) -> nat
    decreases s.len(),
{
    if s.len() == 0 {
        0
    } else {
        digits_val(s.drop_last()) * 10 + dec_digit_val(s.last())
    }
}

/// The integer a text denotes: an optional leading '-' followed by one or
/// more decimal digits; `None` for any other shape.
pub open spec fn text_int(s: Seq<char>) -> Option<int> {
    if s.len() >= 2 && s[0] == '-' && all_dec_digits(s.skip(1)) {
        Some(-(digits_val(s.skip(1)) as int))
    } else if s.len() >= 1 && all_dec_digits(s) {
        Some(digits_val(s) as int)
    } else {
        None
    }
}

/// Extending digit text on the right never lowers its value.
proof fn lemma_digits_val_prefix_le(s: Seq<char>, n: int)
    requires
        0 <= n <= s.len(),
    ensures
        digits_val(s.subrange(0, n)) <= digits_val(s),
    decreases s.len() - n,
{
    if n < s.len() {
        let t = s.subrange(0, n + 1);
        assert(t.drop_last() =~= s.subrange(0, n));
        assert(digits_val(s.subrange(0, n)) <= digits_val(t)) by {
            assert(digits_val(t) == digits_val(t.drop_last()) * 10 + dec_digit_val(t.last()));
        }
        lemma_digits_val_prefix_le(s, n + 1);
        assert(s.subrange(0, s.len() as int) =~= s);
    } else {
        assert(s.subrange(0, n) =~= s);
    }
}

/// Read an integer from text. Returns the denoted value when the text has
/// the shape of a decimal integer and the value fits in the result type.
pub fn parse_i64_text(s: &str) -> (r: Option<i64>)
    ensures
        match r {
            Some(v) => text_int(s@) == Some(v as int),
            None => match text_int(s@) {
                Some(v) => v < i64::MIN || v > i64::MAX,
                None => true,
            },
        },
{
    let n = s.unicode_len();
    if n == 0 {
        return None;
    }
    let neg = s.get_char(0) == '-';
    let start: usize = if neg { 1 } else { 0 };
    if n == start {
        return None;
    }
    let ghost digits = s@.skip(start as int);
    let mut acc: u128 = 0;
    let mut i: usize = start;
    while i < n
        invariant
            start <= i <= n,
            n == s@.len(),
            neg == (s@[0] == '-'),
            start == 1 <==> neg,
            start <= 1,
            digits == s@.skip(start as int),
            all_dec_digits(digits.subrange(0, i - start)),
            acc == digits_val(digits.subrange(0, i - start)),
            acc <= 0x8000_0000_0000_0000u128,
        decreases n - i,
    {
        let c = s.get_char(i);
        if !('0' <= c && c <= '9') {
            proof {
                assert(digits[i - start] == c);
                assert(!all_dec_digits(digits));
                if neg {
                    assert(!is_dec_digit(s@[0]));
                    assert(!all_dec_digits(s@));
                    assert(text_int(s@) is None);
                } else {
                    assert(s@.skip(0) =~= s@);
                    assert(!all_dec_digits(s@));
                    assert(text_int(s@) is None);
                }
            }
            return None;
        }
        let d: u128 = ((c as u32) - ('0' as u32)) as u128;
        acc = acc * 10 + d;
        i = i + 1;
        proof {
            let p = digits.subrange(0, i - start);
            assert(p.drop_last() =~= digits.subrange(0, i - 1 - start));
            assert(p.last() == c);
        }
        if acc > 0x8000_0000_0000_0000u128 {
            proof {
                lemma_digits_val_prefix_le(digits, i - start);
                assert(digits_val(digits) >= acc);
                if neg {
                    assert(s@.skip(1) == digits);
                    if text_int(s@) is Some {
                        assert(text_int(s@).unwrap() <= -(acc as int));
                    }
                } else {
                    assert(s@.skip(0) =~= s@);
                    if text_int(s@) is Some {
                        assert(all_dec_digits(s@));
                        assert(digits_val(s@) >= acc);
                    }
                }
            }
            return None;
        }
    }
    proof {
        assert(digits.subrange(0, n - start) =~= digits);
        assert(all_dec_digits(digits));
        assert(acc == digits_val(digits));
        if neg {
            assert(s@.skip(1) == digits);
            assert(text_int(s@) == Some(-(digits_val(digits) as int)));
        } else {
            assert(s@.skip(0) =~= s@);
            assert(text_int(s@) == Some(digits_val(s@) as int));
        }
    }
    if neg {
        if acc == 0x8000_0000_0000_0000u128 {
            Some(i64::MIN)
        } else {
            Some(-((acc as u64) as i64))
        }
    } else {
        if acc > i64::MAX as u128 {
            None
        } else {
            Some(acc as i64)
        }
    }
}

} // verus!
