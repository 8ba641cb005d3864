//! Decimal rendering and reading of identifiers and page numbers.

use vstd::prelude::*;

use crate::datetime::{digit_val, is_digit, spec_digit_char};

verus! {

/// The decimal digit characters of a number, most significant first.
pub open spec fn dec_digits(n: nat) -> Seq<char>
    decreases n,
{
    if n < 10 {
        seq![spec_digit_char(n as int)]
    } else {
        dec_digits(n / 10).push(spec_digit_char((n % 10) as int))
    }
}

/// The decimal text of a signed number: a minus sign before the magnitude.
pub open spec fn dec_digits_i64(n: int) -> Seq<char> {
    if n < 0 {
        seq!['-'] + dec_digits((-n) as nat)
    } else {
        dec_digits(n as nat)
    }
}

/// Every character a decimal digit.
pub open spec fn all_digits(cs: Seq<char>) -> bool {
    forall|i: int| 0 <= i < cs.len() ==> is_digit(#[trigger] cs[i])
}

/// The number a digit string denotes.
pub open spec fn dec_value(cs: Seq<char>) -> int
    decreases cs.len(),
{
    if cs.len() == 0 {
        0
    } else {
        dec_value(cs.drop_last()) * 10 + digit_val(cs.last())
    }
}

/// A digit's character reads back as its value.
pub proof fn lemma_digit_char_val(d: int)
    requires
        0 <= d < 10,
    ensures
        digit_val(spec_digit_char(d)) == d,
        is_digit(spec_digit_char(d)),
{
}

/// The decimal rendering of a number is a non-empty digit string denoting
/// the number itself.
pub proof fn lemma_dec_digits(n: nat)
    ensures
        dec_digits(n).len() >= 1,
        all_digits(dec_digits(n)),
        dec_value(dec_digits(n)) == n,
    decreases n,
{
    if n < 10 {
        lemma_digit_char_val(n as int);
        assert(dec_digits(n) == seq![spec_digit_char(n as int)]);
        assert(dec_digits(n).len() == 1);
        assert(dec_digits(n).drop_last() =~= Seq::<char>::empty());
        assert(dec_digits(n).last() == spec_digit_char(n as int));
        assert(dec_value(Seq::<char>::empty()) == 0);
        assert(dec_value(dec_digits(n)) == dec_value(dec_digits(n).drop_last()) * 10 + digit_val(
            dec_digits(n).last(),
        ));
        assert(digit_val(spec_digit_char(n as int)) == n);
        assert(dec_value(dec_digits(n)) == n);
    } else {
        lemma_dec_digits(n / 10);
        lemma_digit_char_val((n % 10) as int);
        assert(dec_digits(n).drop_last() =~= dec_digits(n / 10));
        assert(dec_digits(n).last() == spec_digit_char((n % 10) as int));
        assert(dec_value(dec_digits(n)) == dec_value(dec_digits(n / 10)) * 10 + digit_val(
            spec_digit_char((n % 10) as int),
        ));
        assert(n / 10 * 10 + n % 10 == n);
        assert(dec_value(dec_digits(n)) == n);
        assert forall|i: int| 0 <= i < dec_digits(n).len() implies is_digit(
            #[trigger] dec_digits(n)[i],
        ) by {
            if i < dec_digits(n).len() - 1 {
                assert(dec_digits(n)[i] == dec_digits(n / 10)[i]);
            }
        }
    }
}

/// A digit string's value is non-negative.
pub proof fn lemma_dec_value_nonneg(cs: Seq<char>)
    requires
        all_digits(cs),
    ensures
        dec_value(cs) >= 0,
    decreases cs.len(),
{
    if cs.len() > 0 {
        assert(all_digits(cs.drop_last())) by {
            assert(forall|i: int|
                0 <= i < cs.len() - 1 ==> cs.drop_last()[i] == #[trigger] cs[i]);
        }
        lemma_dec_value_nonneg(cs.drop_last());
    }
}

/// Extending a digit string by one digit multiplies its value by ten and
/// adds the digit.
pub proof fn lemma_dec_value_step(cs: Seq<char>, k: int)
    requires
        0 <= k < cs.len(),
    ensures
        dec_value(cs.subrange(0, k + 1)) == dec_value(cs.subrange(0, k)) * 10 + digit_val(
            cs[k],
        ),
{
    assert(cs.subrange(0, k + 1).drop_last() =~= cs.subrange(0, k));
    assert(cs.subrange(0, k + 1).last() == cs[k]);
}

/// A digit string's value is at least the value of each of its prefixes.
pub proof fn lemma_dec_value_prefix_le(cs: Seq<char>, k: int)
    requires
        all_digits(cs),
        0 <= k <= cs.len(),
    ensures
        dec_value(cs.subrange(0, k)) <= dec_value(cs),
    decreases cs.len() - k,
{
    if k == cs.len() {
        assert(cs.subrange(0, k) =~= cs);
    } else {
        assert(all_digits(cs.subrange(0, k))) by {
            assert(forall|i: int|
                0 <= i < k ==> cs.subrange(0, k)[i] == #[trigger] cs[i]);
        }
        lemma_dec_value_nonneg(cs.subrange(0, k));
        lemma_dec_value_step(cs, k);
        lemma_dec_value_prefix_le(cs, k + 1);
    }
}

/// The one-character string of a decimal digit.
fn digit_str(d: u32) -> (r: &'static str)
    requires
        d < 10,
    ensures
        r@ == seq![spec_digit_char(d as int)],
{
    proof {
        reveal_strlit("0");
        reveal_strlit("1");
        reveal_strlit("2");
        reveal_strlit("3");
        reveal_strlit("4");
        reveal_strlit("5");
        reveal_strlit("6");
        reveal_strlit("7");
        reveal_strlit("8");
        reveal_strlit("9");
    }
    let r = match d {
        0 => "0",
        1 => "1",
        2 => "2",
        3 => "3",
        4 => "4",
        5 => "5",
        6 => "6",
        7 => "7",
        8 => "8",
        _ => "9",
    };
    proof {
        assert(r@ =~= seq![spec_digit_char(d as int)]);
    }
    r
}

/// Renders a number in decimal.
pub fn u128_to_dec(n: u128) -> (r: String)
    ensures
        r@ == dec_digits(n as nat),
    decreases n,
{
    if n < 10 {
        String::from_str(digit_str(n as u32))
    } else {
        let mut s = u128_to_dec(n / 10);
        s.append(digit_str((n % 10) as u32));
        proof {
            assert(s@ =~= dec_digits(n as nat));
        }
        s
    }
}

/// Renders a signed number in decimal.
pub fn i64_to_dec(n: i64) -> (r: String)
    ensures
        r@ == dec_digits_i64(n as int),
{
    if n >= 0 {
        u128_to_dec(n as u128)
    } else {
        let mag: u128 = (-(n as i128)) as u128;
        let mut s = String::from_str("-");
        s.append(u128_to_dec(mag).as_str());
        proof {
            reveal_strlit("-");
            assert("-"@ =~= seq!['-']);
            assert(s@ =~= dec_digits_i64(n as int));
        }
        s
    }
}

/// Reads the characters `from..to` as an unsigned decimal number: the
/// segment must be non-empty, all digits, and denote a value in range.
pub fn parse_u128(s: &str, from: usize, to: usize) -> (r: Option<u128>)
    requires
        from <= to <= s@.len(),
    ensures
        r is Some <==> to - from >= 1 && all_digits(s@.subrange(from as int, to as int))
            && dec_value(s@.subrange(from as int, to as int)) <= u128::MAX,
        r matches Some(v) ==> v == dec_value(s@.subrange(from as int, to as int)),
{
    let ghost whole = s@.subrange(from as int, to as int);
    if to == from {
        return None;
    }
    let mut acc: u128 = 0;
    let mut i: usize = from;
    proof {
        assert(whole.subrange(0, 0) =~= Seq::<char>::empty());
    }
    while i < to
        invariant
            from <= i <= to,
            acc == dec_value(whole.subrange(0, i - from)),
            all_digits(whole.subrange(0, i - from)),
        decreases to - i,
    {
        let c = s.get_char(i);
        if !('0' <= c && c <= '9') {
            proof {
                assert(whole[i - from] == c);
            }
            return None;
        }
        let d: u32 = c as u32 - 48;
        proof {
            lemma_dec_value_step(whole, i - from);
            assert(whole[i - from] == c);
            assert(forall|j: int|
                0 <= j < i + 1 - from ==> is_digit(#[trigger] whole.subrange(
                    0,
                    i + 1 - from,
                )[j]));
        }
        let next = match acc.checked_mul(10) {
            Some(m) => m.checked_add(d as u128),
            None => None,
        };
        acc = match next {
            Some(v) => v,
            None => {
                proof {
                    let pre = whole.subrange(0, i + 1 - from);
                    assert(dec_value(pre) > u128::MAX);
                    assert(all_digits(whole) ==> dec_value(whole) > u128::MAX) by {
                        if all_digits(whole) {
                            lemma_dec_value_prefix_le(whole, i + 1 - from);
                        }
                    }
                }
                return None;
            },
        };
        i = i + 1;
    }
    proof {
        assert(whole.subrange(0, to - from) =~= whole);
    }
    Some(acc)
}

/// The number a signed decimal text denotes: an optional minus sign before
/// the digits, within the signed 64-bit range.
pub open spec fn spec_parse_i64(cs: Seq<char>) -> Option<int> {
    if cs.len() >= 2 && cs[0] == '-' {
        let mag = dec_value(cs.subrange(1, cs.len() as int));
        if all_digits(cs.subrange(1, cs.len() as int)) && -mag >= i64::MIN {
            Some(-mag)
        } else {
            None
        }
    } else {
        if cs.len() >= 1 && all_digits(cs) && dec_value(cs) <= i64::MAX {
            Some(dec_value(cs))
        } else {
            None
        }
    }
}

/// Reads the characters `from..to` as a signed decimal number.
pub fn parse_i64(s: &str, from: usize, to: usize) -> (r: Option<i64>)
    requires
        from <= to <= s@.len(),
    ensures
        r matches Some(v) ==> spec_parse_i64(s@.subrange(from as int, to as int)) == Some(
            v as int,
        ),
        r is None ==> spec_parse_i64(s@.subrange(from as int, to as int)) is None,
{
    let ghost whole = s@.subrange(from as int, to as int);
    if to - from >= 2 && s.get_char(from) == '-' {
        proof {
            assert(whole[0] == '-');
            assert(whole.subrange(1, whole.len() as int) =~= s@.subrange(
                from + 1,
                to as int,
            ));
        }
        match parse_u128(s, from + 1, to) {
            Some(mag) => {
                if mag <= 9223372036854775808u128 {
                    let v: i64 = (-(mag as i128)) as i64;
                    Some(v)
                } else {
                    None
                }
            },
            None => {
                proof {
                    if all_digits(whole.subrange(1, whole.len() as int)) {
                        lemma_dec_value_nonneg(whole.subrange(1, whole.len() as int));
                    }
                }
                None
            },
        }
    } else {
        proof {
            if to - from >= 2 {
                assert(whole[0] != '-');
            }
        }
        match parse_u128(s, from, to) {
            Some(v) => {
                if v <= i64::MAX as u128 {
                    Some(v as i64)
                } else {
                    None
                }
            },
            None => None,
        }
    }
}

/// Reads the characters `from..to` as an unsigned 32-bit decimal number.
pub fn parse_u32(s: &str, from: usize, to: usize) -> (r: Option<u32>)
    requires
        from <= to <= s@.len(),
    ensures
        r is Some <==> to - from >= 1 && all_digits(s@.subrange(from as int, to as int))
            && dec_value(s@.subrange(from as int, to as int)) <= u32::MAX,
        r matches Some(v) ==> v == dec_value(s@.subrange(from as int, to as int)),
{
    match parse_u128(s, from, to) {
        Some(v) => {
            if v <= u32::MAX as u128 {
                Some(v as u32)
            } else {
                None
            }
        },
        None => None,
    }
}

} // verus!
