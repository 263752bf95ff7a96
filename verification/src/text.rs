//! Text primitives shared by the dispatcher and the asset resolver: decimal
//! parsing of a port number, trimming of leading separators, and lower-casing.

use vstd::prelude::*;
use vstd::string::*;

verus! {

/// `c` is one of the ten ASCII decimal digits.
pub open spec fn is_decimal_digit(c: char) -> bool {
    '0' <= c && c <= '9'
}

/// The number a decimal digit stands for.
pub open spec fn digit_value(c: char) -> nat {
    (c as int - '0' as int) as nat
}

/// Every character of `s` is a decimal digit.
pub open spec fn all_decimal_digits(s: Seq<char>) -> bool {
    forall|i: int| 0 <= i < s.len() ==> is_decimal_digit(#[trigger] s[i])
}

/// The number that a sequence of decimal digits denotes, most significant
/// digit first. The empty sequence denotes zero.
pub open spec fn decimal_value(digits: Seq<char>) -> nat
    decreases digits.len(),
{
    if digits.len() == 0 {
        0
    } else {
        decimal_value(digits.drop_last()) * 10 + digit_value(digits.last())
    }
}

/// `s` without one leading plus sign, if it has one.
pub open spec fn without_plus_sign(s: Seq<char>) -> Seq<char> {
    if s.len() > 0 && s[0] == '+' {
        s.skip(1)
    } else {
        s
    }
}

/// The 16-bit unsigned number that `s` spells: an optional plus sign, then
/// one or more decimal digits and nothing else, the whole no larger than
/// 65535. Any other text spells no number.
pub open spec fn parse_u16(s: Seq<char>) -> Option<u16> {
    let digits = without_plus_sign(s);
    if digits.len() > 0 && all_decimal_digits(digits) && decimal_value(digits) <= u16::MAX {
        Some(decimal_value(digits) as u16)
    } else {
        None
    }
}

/// A prefix of a digit sequence never denotes more than the whole sequence.
pub proof fn lemma_decimal_value_prefix(digits: Seq<char>, k: int)
    requires
        0 <= k <= digits.len(),
    ensures
        decimal_value(digits.subrange(0, k)) <= decimal_value(digits),
    decreases digits.len() - k,
{
    if k == digits.len() {
        assert(digits.subrange(0, k) =~= digits);
    } else {
        assert(digits.drop_last().subrange(0, k) =~= digits.subrange(0, k));
        lemma_decimal_value_prefix(digits.drop_last(), k);
    }
}

/// Reads a port number as `str::parse::<u16>` does.
pub fn parse_port(text: &str) -> (port: Option<u16>)
    ensures
        port == parse_u16(text@),
{
    let mut value: u32 = 0;
    let mut first = true;
    let mut any_digit = false;
    let ghost mut start: int = 0;
    for c in it: text.chars()
        invariant
            it.seq() == text@,
            first == (it.index() == 0),
            value <= u16::MAX,
            0 <= start <= it.index(),
            start == if it.index() > 0 && text@[0] == '+' {
                1int
            } else {
                0int
            },
            any_digit == (it.index() > start),
            all_decimal_digits(text@.subrange(start, it.index() as int)),
            value == decimal_value(text@.subrange(start, it.index() as int)),
    {
        let ghost i = it.index() as int;
        let ghost digits = without_plus_sign(text@);
        assert(c == text@[i]);
        if first && c == '+' {
            proof {
                start = 1;
                assert(text@.subrange(1, i + 1) =~= Seq::<char>::empty());
            }
        } else if '0' <= c && c <= '9' {
            let digit = (c as u32) - ('0' as u32);
            let next = value * 10 + digit;
            proof {
                let seen = text@.subrange(start, i + 1);
                assert(seen.drop_last() =~= text@.subrange(start, i));
                assert(seen.last() == c);
                assert(next == decimal_value(seen));
                assert(all_decimal_digits(seen)) by {
                    assert forall|j: int| 0 <= j < seen.len() implies is_decimal_digit(
                        #[trigger] seen[j],
                    ) by {
                        if j < seen.len() - 1 {
                            assert(seen[j] == text@.subrange(start, i)[j]);
                        }
                    }
                }
                if next > u16::MAX {
                    assert(digits.subrange(0, i + 1 - start) =~= seen);
                    lemma_decimal_value_prefix(digits, i + 1 - start);
                }
            }
            if next > 0xffff {
                return None;
            }
            value = next;
            any_digit = true;
        } else {
            proof {
                assert(digits[i - start] == c);
                assert(!is_decimal_digit(c));
            }
            return None;
        }
        first = false;
    }
    proof {
        assert(without_plus_sign(text@) =~= text@.subrange(start, text@.len() as int));
    }
    if any_digit {
        Some(value as u16)
    } else {
        None
    }
}

/// `s` without its leading run of the character `c`.
pub open spec fn trim_start(s: Seq<char>, c: char) -> Seq<char>
    decreases s.len(),
{
    if s.len() > 0 && s[0] == c {
        trim_start(s.drop_first(), c)
    } else {
        s
    }
}

/// If the first `k` characters of `s` are all `c` and the one after them, if
/// any, is not, then trimming `s` removes exactly those `k` characters.
pub proof fn lemma_trim_start_at(s: Seq<char>, c: char, k: int)
    requires
        0 <= k <= s.len(),
        forall|j: int| 0 <= j < k ==> s[j] == c,
        k < s.len() ==> s[k] != c,
    ensures
        trim_start(s, c) == s.subrange(k, s.len() as int),
    decreases k,
{
    if k == 0 {
        assert(s.subrange(0, s.len() as int) =~= s);
    } else {
        let rest = s.drop_first();
        assert forall|j: int| 0 <= j < k - 1 implies rest[j] == c by {
            assert(rest[j] == s[j + 1]);
        }
        lemma_trim_start_at(rest, c, k - 1);
        assert(rest.subrange(k - 1, rest.len() as int) =~= s.subrange(k, s.len() as int));
    }
}

/// Removes every leading occurrence of `c`, as `str::trim_start_matches`
/// does for a character pattern.
pub fn strip_leading(text: &str, c: char) -> (rest: &str)
    ensures
        rest@ == trim_start(text@, c),
{
    let total = text.unicode_len();
    let mut run: usize = 0;
    let mut leading = true;
    for ch in it: text.chars()
        invariant
            it.seq() == text@,
            total == text@.len(),
            run <= it.index(),
            leading ==> run == it.index(),
            !leading ==> run < it.index() && text@[run as int] != c,
            forall|j: int| 0 <= j < run ==> text@[j] == c,
    {
        assert(ch == text@[it.index() as int]);
        if leading && ch == c {
            run = run + 1;
        } else {
            leading = false;
        }
    }
    proof {
        lemma_trim_start_at(text@, c, run as int);
    }
    text.substring_char(run, total)
}

/// Whether two texts hold the same characters.
pub fn same_text(a: &str, b: &str) -> (same: bool)
    ensures
        same == (a@ == b@),
{
    a.to_owned() == b.to_owned()
}

/// The lower-case form that the standard library gives a text: the result
/// of `str::to_lowercase`, which follows the Unicode case tables and depends
/// on the text alone.
pub uninterp spec fn lowercased(s: Seq<char>) -> Seq<char>;

/// Calls `str::to_lowercase`. Nothing is proved of the call: the contract
/// gives its result the name [`lowercased`] and claims no more of it.
#[verifier::external_body]
pub(crate) fn to_lowercase(text: &str) -> (lower: String)
    ensures
        lower@ == lowercased(text@),
{
    text.to_lowercase()
}

} // verus!
