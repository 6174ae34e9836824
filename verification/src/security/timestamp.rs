//! The signed-timestamp header: two textual formats, tried in order, and the
//! clock-skew tolerance check.

use vstd::prelude::*;

use crate::security::clock::{epoch_millis_from_secs, epoch_secs_in_range, parse_rfc3339_millis,
    rfc3339_millis};

verus! {

pub open spec fn is_digit(c: char) -> bool {
    48 <= c as u32 <= 57
}

pub open spec fn digit_val(c: char) -> int {
    c as u32 - 48
}

pub open spec fn all_digits(s: Seq<char>) -> bool {
    forall|i: int| 0 <= i < s.len() ==> is_digit(s[i])
}

/// The value of a string of decimal digits.
pub open spec fn dec_value(s: Seq<char>) -> int
    decreases s.len(),
{
    if s.len() == 0 {
        0
    } else {
        dec_value(s.drop_last()) * 10 + digit_val(s.last())
    }
}

/// What `str::parse::<i64>` makes of the text: an optional sign, then at
/// least one ASCII digit and nothing else, with the value fitting in an i64.
pub open spec fn parsed_i64(s: Seq<char>) -> Option<i64> {
    let signed = s.len() > 0 && (s[0] == '+' || s[0] == '-');
    let body = if signed {
        s.drop_first()
    } else {
        s
    };
    let neg = s.len() > 0 && s[0] == '-';
    if body.len() > 0 && all_digits(body) {
        let v = if neg {
            -dec_value(body)
        } else {
            dec_value(body)
        };
        if i64::MIN <= v <= i64::MAX {
            Some(v as i64)
        } else {
            None
        }
    } else {
        None
    }
}

fn is_digit_char(c: char) -> (r: bool)
    ensures
        r == is_digit(c),
{
    let u = c as u32;
    48 <= u && u <= 57
}

proof fn lemma_dec_value_nonneg(s: Seq<char>)
    requires
        all_digits(s),
    ensures
        dec_value(s) >= 0,
    decreases s.len(),
{
    if s.len() > 0 {
        assert(all_digits(s.drop_last())) by {
            assert(forall|i: int|
                0 <= i < s.len() - 1 ==> is_digit(#[trigger] s.drop_last()[i]) == is_digit(s[i]));
        }
        lemma_dec_value_nonneg(s.drop_last());
        assert(is_digit(s.last()));
    }
}

proof fn lemma_dec_value_take_le(s: Seq<char>, i: int)
    requires
        all_digits(s),
        0 <= i <= s.len(),
    ensures
        dec_value(s.take(i)) <= dec_value(s),
    decreases s.len(),
{
    if i == s.len() {
        assert(s.take(i) =~= s);
    } else {
        let t = s.drop_last();
        assert(all_digits(t)) by {
            assert(forall|j: int| 0 <= j < t.len() ==> is_digit(#[trigger] t[j]) == is_digit(s[j]));
        }
        lemma_dec_value_take_le(t, i);
        assert(s.take(i) =~= t.take(i));
        lemma_dec_value_nonneg(t);
        assert(is_digit(s.last()));
        assert(dec_value(s) == dec_value(t) * 10 + digit_val(s.last()));
        assert(dec_value(t) * 10 >= dec_value(t));
    }
}

/// `str::parse::<i64>`, reproduced over character views.
pub fn parse_i64(s: &str) -> (r: Option<i64>)
    ensures
        r == parsed_i64(s@),
{
    let n: usize = s.unicode_len();
    if n == 0 {
        return None;
    }
    let c0: char = s.get_char(0);
    let neg: bool = c0 == '-';
    let signed: bool = neg || c0 == '+';
    let start: usize = if signed {
        1
    } else {
        0
    };
    if start == n {
        return None;
    }
    let ghost body = if signed {
        s@.drop_first()
    } else {
        s@
    };
    proof {
        assert(body =~= s@.subrange(start as int, n as int));
    }
    let limit: u64 = if neg {
        9223372036854775808
    } else {
        9223372036854775807
    };
    let mut mag: u64 = 0;
    let mut i: usize = start;
    while i < n
        invariant
            start <= i <= n,
            n == s@.len(),
            n >= 1,
            signed == (s@[0] == '+' || s@[0] == '-'),
            neg == (s@[0] == '-'),
            start == if signed { 1int } else { 0int },
            body == if signed { s@.drop_first() } else { s@ },
            body == s@.subrange(start as int, n as int),
            body.len() == n - start,
            body.len() >= 1,
            all_digits(body.take(i - start)),
            mag == dec_value(body.take(i - start)),
            mag <= limit,
            limit == if neg { 9223372036854775808u64 } else { 9223372036854775807u64 },
        decreases n - i,
    {
        let c: char = s.get_char(i);
        if !is_digit_char(c) {
            proof {
                assert(body[i - start] == c);
                assert(!all_digits(body));
            }
            return None;
        }
        let u: u32 = c as u32;
        let d: u64 = (u - 48) as u64;
        let widened: u128 = mag as u128 * 10 + d as u128;
        proof {
            assert(body.take(i - start + 1).drop_last() =~= body.take(i - start));
            assert(body.take(i - start + 1).last() == c);
            assert(dec_value(body.take(i - start + 1)) == mag * 10 + d);
        }
        if widened > limit as u128 {
            proof {
                if all_digits(body) {
                    lemma_dec_value_take_le(body, i - start + 1);
                    lemma_dec_value_nonneg(body);
                    assert(dec_value(body) > limit);
                }
            }
            return None;
        }
        mag = widened as u64;
        i = i + 1;
    }
    proof {
        assert(body.take(n - start) =~= body);
    }
    if neg {
        if mag == 9223372036854775808 {
            Some(i64::MIN)
        } else {
            Some(-(mag as i64))
        }
    } else {
        Some(mag as i64)
    }
}

/// The instant a signed-timestamp header denotes, in epoch milliseconds:
/// an RFC 3339 date-time if the text parses as one, otherwise a decimal
/// count of epoch seconds, otherwise nothing.
pub open spec fn stamp_millis(s: Seq<char>) -> Option<i64> {
    if rfc3339_millis(s) is Some {
        rfc3339_millis(s)
    } else {
        match parsed_i64(s) {
            Some(secs) => if epoch_secs_in_range(secs) {
                Some((secs as int * 1000) as i64)
            } else {
                None
            },
            None => None,
        }
    }
}

/// Parse a signed-timestamp header value, trying the two accepted formats in
/// order.
pub fn timestamp_millis(s: &str) -> (r: Option<i64>)
    ensures
        r == stamp_millis(s@),
{
    match parse_rfc3339_millis(s) {
        Some(ms) => Some(ms),
        None => match parse_i64(s) {
            Some(secs) => match epoch_millis_from_secs(secs) {
                Some(ms) => {
                    proof {
                        assert((secs as int * 1000) as i64 == ms);
                    }
                    Some(ms)
                },
                None => None,
            },
            None => None,
        },
    }
}

/// Whether a claimed signing instant lies within the tolerance window around
/// the verifier's current instant; the boundary itself is accepted.
pub open spec fn within_tolerance(stamp_ms: i64, now_ms: i64, tolerance_ms: u64) -> bool {
    let d = if now_ms >= stamp_ms {
        now_ms - stamp_ms
    } else {
        stamp_ms - now_ms
    };
    d <= tolerance_ms
}

pub fn check_tolerance(stamp_ms: i64, now_ms: i64, tolerance_ms: u64) -> (r: bool)
    ensures
        r == within_tolerance(stamp_ms, now_ms, tolerance_ms),
{
    let d: i128 = if now_ms >= stamp_ms {
        now_ms as i128 - stamp_ms as i128
    } else {
        stamp_ms as i128 - now_ms as i128
    };
    d <= tolerance_ms as i128
}

/// Law: a request signed at instant `stamp_ms` passes the tolerance check at
/// instant `now_ms` exactly when `now_ms` lies in the closed window around
/// `stamp_ms`: the boundary itself passes, any excess fails. (The window's
/// ends are stated under the no-overflow bounds that i64 instants impose.)
pub proof fn lemma_tolerance_window(stamp_ms: i64, tolerance_ms: u64)
    requires
        stamp_ms + tolerance_ms <= i64::MAX,
        stamp_ms - tolerance_ms >= i64::MIN,
    ensures
        forall|now_ms: i64|
            #[trigger] within_tolerance(stamp_ms, now_ms, tolerance_ms) == (stamp_ms - tolerance_ms
                <= now_ms <= stamp_ms + tolerance_ms),
        within_tolerance(stamp_ms, (stamp_ms + tolerance_ms) as i64, tolerance_ms),
        within_tolerance(stamp_ms, (stamp_ms - tolerance_ms) as i64, tolerance_ms),
        forall|now_ms: i64|
            now_ms > stamp_ms + tolerance_ms || now_ms < stamp_ms - tolerance_ms
                ==> !#[trigger] within_tolerance(stamp_ms, now_ms, tolerance_ms),
{
}

/// The tolerance window in milliseconds for a configured count of seconds.
/// A span of milliseconds is compared as a signed 64-bit count, so a
/// configured tolerance beyond that range cannot be compared against and
/// collapses to the five-second default.
pub open spec fn effective_tolerance_ms(secs: u64) -> u64 {
    if secs <= 9223372036854775 {
        (secs * 1000) as u64
    } else {
        5000
    }
}

pub fn tolerance_millis(secs: u64) -> (r: u64)
    ensures
        r == effective_tolerance_ms(secs),
{
    if secs <= 9223372036854775 {
        secs * 1000
    } else {
        5000
    }
}

} // verus!
