//! Decimal rendering and parsing for the numeric-count verbs: a count is
//! rendered into arguments such as a relative-commit reference or a
//! `--max-count` flag, and the first user argument of a counted verb may be
//! parsed back as a count.

use vstd::prelude::*;
use vstd::string::StrSliceExecFns;
use vstd::string::StringExecFns;

verus! {

/// The decimal digit character for a value below ten.
pub open spec fn digit_char(d: nat) -> char
    recommends
        d < 10,
{
    if d == 0 {
        '0'
    } else if d == 1 {
        '1'
    } else if d == 2 {
        '2'
    } else if d == 3 {
        '3'
    } else if d == 4 {
        '4'
    } else if d == 5 {
        '5'
    } else if d == 6 {
        '6'
    } else if d == 7 {
        '7'
    } else if d == 8 {
        '8'
    } else {
        '9'
    }
}

/// The decimal rendering of a natural number, without sign or padding.
pub open spec fn dec_rep(n: nat) -> Seq<char>
    decreases n,
{
    if n < 10 {
        seq![digit_char(n)]
    } else {
        dec_rep(n / 10).push(digit_char(n % 10))
    }
}

/// `c` is one of `0`..=`9`.
pub open spec fn is_dec_digit(c: char) -> bool {
    48 <= c as int <= 57
}

/// The numeric value of a digit character.
pub open spec fn digit_val(c: char) -> nat
    recommends
        is_dec_digit(c),
{
    (c as int - 48) as nat
}

/// The value of a digit string read left to right.
pub open spec fn digits_val(s: Seq<char>) -> nat
    decreases s.len(),
{
    if s.len() == 0 {
        0
    } else {
        digits_val(s.drop_last()) * 10 + digit_val(s.last())
    }
}

/// The digit part of a count argument: everything after one optional leading
/// plus sign.
pub open spec fn count_digits(s: Seq<char>) -> Seq<char> {
    if s.len() > 0 && s[0] == '+' {
        s.drop_first()
    } else {
        s
    }
}

/// `s` is what `u8::from_str` accepts: an optional leading plus sign, then
/// one or more decimal digits whose value fits in eight bits.
pub open spec fn parses_as_u8(s: Seq<char>) -> bool {
    let t = count_digits(s);
    &&& t.len() > 0
    &&& forall|i: int| 0 <= i < t.len() ==> is_dec_digit(#[trigger] t[i])
    &&& digits_val(t) <= 255
}

/// The value `u8::from_str` yields on an accepted string.
pub open spec fn parsed_u8(s: Seq<char>) -> nat {
    digits_val(count_digits(s))
}

proof fn lemma_digits_val_take(s: Seq<char>, j: int)
    requires
        0 <= j <= s.len(),
    ensures
        digits_val(s.take(j)) <= digits_val(s),
    decreases s.len(),
{
    if j < s.len() {
        assert(s.drop_last().take(j) =~= s.take(j));
        lemma_digits_val_take(s.drop_last(), j);
    } else {
        assert(s.take(j) =~= s);
    }
}

/// The count a verb uses: the caller's, or the verb's default when the
/// caller gave none.
pub open spec fn count_or_default(num: Option<u16>, dflt: nat) -> nat {
    match num {
        Some(n) => n as nat,
        None => dflt,
    }
}

/// The decimal digit string for a value below ten.
fn digit_str(d: u16) -> (r: &'static str)
    requires
        d < 10,
    ensures
        r@ == seq![digit_char(d as nat)],
{
    proof {
        reveal_strlit("0");
        reveal_strlit("1");
        reveal_strlit("2");
        reveal_strlit("3");
        reveal_strlit("4");
        reveal_strlit("5");
        reveal_strlit("6");
        reveal_strlit("7");
        reveal_strlit("8");
        reveal_strlit("9");
    }
    let r = match d {
        0 => "0",
        1 => "1",
        2 => "2",
        3 => "3",
        4 => "4",
        5 => "5",
        6 => "6",
        7 => "7",
        8 => "8",
        _ => "9",
    };
    assert(r@ =~= seq![digit_char(d as nat)]);
    r
}

/// Renders a count in decimal.
pub fn u16_to_string(n: u16) -> (r: String)
    ensures
        r@ == dec_rep(n as nat),
    decreases n,
{
    if n < 10 {
        let s = digit_str(n);
        let r = s.to_owned();
        r
    } else {
        let mut r = u16_to_string(n / 10);
        r.append(digit_str(n % 10));
        proof {
            assert(dec_rep((n / 10) as nat) + seq![digit_char((n % 10) as nat)] =~= dec_rep(
                (n / 10) as nat,
            ).push(digit_char((n % 10) as nat)));
            assert((n / 10) as nat == (n as nat) / 10);
            assert((n % 10) as nat == (n as nat) % 10);
        }
        r
    }
}

/// Parses a count exactly as `u8::from_str` does: `Some` if and only if the
/// string is an optional plus sign followed by digits with value at most 255.
pub fn parse_u8(s: &str) -> (r: Option<u8>)
    ensures
        match r {
            Some(v) => parses_as_u8(s@) && v as nat == parsed_u8(s@),
            None => !parses_as_u8(s@),
        },
{
    let len = s.unicode_len();
    if len == 0 {
        return None;
    }
    let first = s.get_char(0);
    let start: usize = if first == '+' {
        1
    } else {
        0
    };
    let ghost t = count_digits(s@);
    proof {
        assert(t =~= s@.subrange(start as int, s@.len() as int));
    }
    if len == start {
        assert(t.len() == 0);
        return None;
    }
    let mut val: u32 = 0;
    let mut i: usize = start;
    while i < len
        invariant
            len == s@.len(),
            start <= i <= len,
            start <= 1,
            t == count_digits(s@),
            t == s@.subrange(start as int, s@.len() as int),
            forall|k: int| 0 <= k < i - start ==> is_dec_digit(#[trigger] t[k]),
            val as nat == digits_val(t.take(i - start)),
            val <= 255,
        decreases len - i,
    {
        let c = s.get_char(i);
        let code = c as u32;
        if code < 48 || code > 57 {
            assert(t[i - start] == s@[i as int]);
            assert(!is_dec_digit(t[i - start]));
            return None;
        }
        proof {
            assert(t.take(i + 1 - start) =~= t.take(i - start).push(s@[i as int]));
            assert(t.take(i + 1 - start).drop_last() =~= t.take(i - start));
        }
        val = val * 10 + (code - 48);
        if val > 255 {
            proof {
                lemma_digits_val_take(t, i + 1 - start);
            }
            assert(digits_val(t) > 255);
            return None;
        }
        i += 1;
    }
    proof {
        assert(t.take(len - start) =~= t);
    }
    Some(val as u8)
}

} // verus!
