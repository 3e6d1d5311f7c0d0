//! Settings fixed at start-up and handed to every check that needs them.

use vstd::prelude::*;
use crate::crypto::CostParams;
use crate::crypto::argon2_params;

verus! {

/// Validity windows and hashing costs. A window that is `None` was missing
/// or unreadable when the settings were read; every check that depends on
/// it then fails.
#[derive(Clone, Copy, Debug, PartialEq, Eq, Structural)]
pub struct Config {
    /// How long a one-time code stays usable, in hours.
    pub otp_duration_hours: Option<i64>,
    /// How long a session stays usable, in days.
    pub session_duration_days: Option<i64>,
    /// Costs of hashing a new credential.
    pub hash_cost: CostParams,
}

/// Whether `c` is a decimal digit.
pub open spec fn is_digit(c: char) -> bool {
    '0' <= c <= '9'
}

/// Whether `s` holds decimal digits only.
pub open spec fn all_digits(s: Seq<char>) -> bool {
    forall|i: int| 0 <= i < s.len() ==> is_digit(#[trigger] s[i])
}

/// The number that a run of decimal digits writes.
pub open spec fn decimal(s: Seq<char>) -> int
    decreases s.len(),
{
    if s.len() == 0 {
        0
    } else {
        decimal(s.drop_last()) * 10 + (s.last() as int - '0' as int)
    }
}

/// The digits of a number's text: the text without a leading sign.
pub open spec fn digits_of(s: Seq<char>) -> Seq<char> {
    if s.len() > 0 && (s[0] == '-' || s[0] == '+') {
        s.subrange(1, s.len() as int)
    } else {
        s
    }
}

/// The number that `s` writes: an optional `+` or `-`, then one or more
/// decimal digits and nothing else, with a value that fits 64 bits.
/// Anything else writes no number.
pub open spec fn number_of(s: Seq<char>) -> Option<i64> {
    let digits = digits_of(s);
    let value = if s.len() > 0 && s[0] == '-' {
        -decimal(digits)
    } else {
        decimal(digits)
    };
    if digits.len() == 0 || !all_digits(digits) {
        None
    } else if i64::MIN <= value <= i64::MAX {
        Some(value as i64)
    } else {
        None
    }
}

/// A run of digits writes at least what any of its prefixes writes.
pub proof fn lemma_decimal_grows(s: Seq<char>, k: int)
    requires
        all_digits(s),
        0 <= k <= s.len(),
    ensures
        0 <= decimal(s.subrange(0, k)) <= decimal(s),
    decreases s.len() - k,
{
    lemma_decimal_nonnegative(s.subrange(0, k));
    if k < s.len() {
        let next = s.subrange(0, k + 1);
        assert(next.drop_last() =~= s.subrange(0, k));
        assert(is_digit(s[k]));
        assert(next.last() == s[k]);
        lemma_decimal_grows(s, k + 1);
    } else {
        assert(s.subrange(0, k) =~= s);
    }
}

/// A run of digits writes no negative number.
pub proof fn lemma_decimal_nonnegative(s: Seq<char>)
    requires
        all_digits(s),
    ensures
        0 <= decimal(s),
    decreases s.len(),
{
    if s.len() > 0 {
        assert(is_digit(s.last()));
        lemma_decimal_nonnegative(s.drop_last());
    }
}

/// The largest magnitude of a 64-bit number, that of the smallest one.
pub const MAGNITUDE_LIMIT: i128 = 9_223_372_036_854_775_808;

/// Reads a number from its decimal text.
pub fn parse_number(text: &str) -> (n: Option<i64>)
    ensures
        n == number_of(text@),
{
    let len: usize = text.unicode_len();
    if len == 0 {
        return None;
    }
    let first: char = text.get_char(0);
    let negative: bool = first == '-';
    let start: usize = if first == '-' || first == '+' {
        1
    } else {
        0
    };
    let ghost digits = digits_of(text@);
    assert(digits =~= text@.subrange(start as int, len as int));
    if start == len {
        return None;
    }
    let mut value: i128 = 0;
    let mut i: usize = start;
    while i < len
        invariant
            len == text@.len(),
            start <= i <= len,
            digits == text@.subrange(start as int, len as int),
            digits == digits_of(text@),
            start < len,
            negative == (text@[0] == '-'),
            all_digits(digits.subrange(0, i - start)),
            value == decimal(digits.subrange(0, i - start)),
            0 <= value <= MAGNITUDE_LIMIT,
        decreases len - i,
    {
        let c: char = text.get_char(i);
        if c < '0' || c > '9' {
            assert(digits[i - start] == c);
            assert(!all_digits(digits));
            return None;
        }
        let digit: i128 = (c as u32 - '0' as u32) as i128;
        let ghost prefix = digits.subrange(0, i - start + 1);
        assert(prefix.drop_last() =~= digits.subrange(0, i - start));
        assert(prefix.last() == c);
        assert(all_digits(prefix)) by {
            assert forall|j: int| 0 <= j < prefix.len() implies is_digit(#[trigger] prefix[j]) by {
                if j < i - start {
                    assert(prefix[j] == digits.subrange(0, i - start)[j]);
                }
            }
        }
        let next: i128 = value * 10 + digit;
        assert(digit == c as int - '0' as int);
        assert(next == decimal(prefix));
        if next > MAGNITUDE_LIMIT {
            proof {
                if all_digits(digits) {
                    lemma_decimal_grows(digits, i - start + 1);
                    assert(decimal(digits) > MAGNITUDE_LIMIT);
                }
            }
            return None;
        }
        value = next;
        i = i + 1;
    }
    assert(digits.subrange(0, len - start) =~= digits);
    if negative {
        Some((-value) as i64)
    } else if value == MAGNITUDE_LIMIT {
        None
    } else {
        Some(value as i64)
    }
}

/// Reads a window setting: the number that the text writes, or `None`
/// where the setting is missing or writes no number.
pub fn parse_window(setting: Option<&str>) -> (window: Option<i64>)
    ensures
        window == match setting {
            Some(text) => number_of(text@),
            None => None,
        },
{
    match setting {
        Some(text) => parse_number(text),
        None => None,
    }
}

/// Whether `c` is the letter `lower` in either case.
pub open spec fn is_letter(c: char, lower: char, upper: char) -> bool {
    c == lower || c == upper
}

/// Whether `s` spells "true" in any mix of upper and lower case.
pub open spec fn spells_true(s: Seq<char>) -> bool {
    &&& s.len() == 4
    &&& is_letter(s[0], 't', 'T')
    &&& is_letter(s[1], 'r', 'R')
    &&& is_letter(s[2], 'u', 'U')
    &&& is_letter(s[3], 'e', 'E')
}

/// Whether outbound mail is switched on: the setting is present and spells
/// "true" in any case. A missing setting switches it off.
pub fn smtp_enabled(setting: Option<&str>) -> (enabled: bool)
    ensures
        enabled == (setting matches Some(text) && spells_true(text@)),
{
    match setting {
        Some(text) => {
            if text.unicode_len() != 4 {
                return false;
            }
            let t: char = text.get_char(0);
            let r: char = text.get_char(1);
            let u: char = text.get_char(2);
            let e: char = text.get_char(3);
            (t == 't' || t == 'T') && (r == 'r' || r == 'R') && (u == 'u' || u == 'U') && (e == 'e'
                || e == 'E')
        },
        None => false,
    }
}

impl Config {
    /// Settings with the given windows and the standard hashing costs.
    pub fn new(otp_duration_hours: Option<i64>, session_duration_days: Option<i64>) -> (c: Config)
        ensures
            c.otp_duration_hours == otp_duration_hours,
            c.session_duration_days == session_duration_days,
            c.hash_cost == (CostParams { m_cost: 2_097_152, t_cost: 1, p_cost: 1 }),
    {
        Config { otp_duration_hours, session_duration_days, hash_cost: argon2_params() }
    }

    /// Settings read from the text of the two window settings, each as it
    /// was found or `None` where it was not set.
    pub fn from_settings(otp_duration_hours: Option<&str>, session_duration_days: Option<&str>) -> (c:
        Config)
        ensures
            c.otp_duration_hours == match otp_duration_hours {
                Some(text) => number_of(text@),
                None => None,
            },
            c.session_duration_days == match session_duration_days {
                Some(text) => number_of(text@),
                None => None,
            },
            c.hash_cost == (CostParams { m_cost: 2_097_152, t_cost: 1, p_cost: 1 }),
    {
        Config::new(parse_window(otp_duration_hours), parse_window(session_duration_days))
    }
}

} // verus!
