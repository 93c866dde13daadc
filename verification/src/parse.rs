//! Trimming and unsigned 32-bit decimal parsing of an input line.
//!
//! The transition decisions hinge on one question: does the input line, with
//! white space trimmed from both ends, denote an unsigned 32-bit integer?
//! `spec_parse_u32` and `spec_trim` state the question mathematically;
//! `parse_u32` answers it.

use vstd::prelude::*;
use vstd::string::StrSliceExecFns;

verus! {

/// A character with the Unicode `White_Space` property: what trimming an
/// input line removes from its ends.
pub open spec fn is_space(c: char) -> bool {
    let u = c as u32;
    (9 <= u && u <= 13) || u == 32 || u == 0x85 || u == 0xA0 || u == 0x1680 || (0x2000 <= u
        && u <= 0x200A) || u == 0x2028 || u == 0x2029 || u == 0x202F || u == 0x205F || u == 0x3000
}

/// A decimal digit.
pub open spec fn is_digit(c: char) -> bool {
    48 <= c as u32 && c as u32 <= 57
}

/// The value of a single decimal digit character.
pub open spec fn digit_value(c: char) -> nat {
    (c as u32 - 48) as nat
}

/// The number denoted by a sequence of decimal digits, most significant
/// digit first.
pub open spec fn digits_value(s: Seq<char>) -> nat
    decreases s.len(),
{
    if s.len() == 0 {
        0
    } else {
        digits_value(s.drop_last()) * 10 + digit_value(s.last())
    }
}

/// A non-empty sequence consisting of decimal digits only.
pub open spec fn all_digits(s: Seq<char>) -> bool {
    s.len() > 0 && (forall|i: int| 0 <= i < s.len() ==> is_digit(#[trigger] s[i]))
}

/// `s` without its single leading plus sign, if it has one: the sign an
/// unsigned decimal numeral may optionally carry.
pub open spec fn strip_plus(s: Seq<char>) -> Seq<char> {
    if s.len() > 0 && s[0] == '+' {
        s.subrange(1, s.len() as int)
    } else {
        s
    }
}

/// What parsing `s` as an unsigned 32-bit integer yields: `s` must be, after
/// an optional leading `+`, one or more decimal digits whose value fits in
/// 32 bits.  Anything else — an empty string, a sign alone, a minus sign,
/// any non-digit, a value past `u32::MAX` — does not parse.
pub open spec fn spec_parse_u32(s: Seq<char>) -> Option<u32> {
    let d = strip_plus(s);
    if all_digits(d) && digits_value(d) <= u32::MAX {
        Some(digits_value(d) as u32)
    } else {
        None
    }
}

/// `s` with leading white space removed.
pub open spec fn trim_start(s: Seq<char>) -> Seq<char>
    decreases s.len(),
{
    if s.len() > 0 && is_space(s[0]) {
        trim_start(s.drop_first())
    } else {
        s
    }
}

/// `s` with trailing white space removed.
pub open spec fn trim_end(s: Seq<char>) -> Seq<char>
    decreases s.len(),
{
    if s.len() > 0 && is_space(s.last()) {
        trim_end(s.drop_last())
    } else {
        s
    }
}

/// `s` with white space removed from both ends.
pub open spec fn spec_trim(s: Seq<char>) -> Seq<char> {
    trim_end(trim_start(s))
}

/// Whether `c` has the Unicode `White_Space` property.
fn is_space_char(c: char) -> (r: bool)
    ensures
        r == is_space(c),
{
    let u: u32 = c as u32;
    (9 <= u && u <= 13) || u == 32 || u == 0x85 || u == 0xA0 || u == 0x1680 || (0x2000 <= u
        && u <= 0x200A) || u == 0x2028 || u == 0x2029 || u == 0x202F || u == 0x205F || u == 0x3000
}

/// The value of a digit prefix never exceeds the value of the whole digit
/// string: appending digits only grows the denoted number.
proof fn lemma_digits_value_prefix(s: Seq<char>, k: int)
    requires
        0 <= k <= s.len(),
    ensures
        digits_value(s.subrange(0, k)) <= digits_value(s),
    decreases s.len() - k,
{
    if k == s.len() {
        assert(s.subrange(0, k) =~= s);
    } else {
        lemma_digits_value_prefix(s, k + 1);
        let a = s.subrange(0, k);
        let b = s.subrange(0, k + 1);
        assert(b.drop_last() =~= a);
        assert(digits_value(b) == digits_value(a) * 10 + digit_value(b.last()));
    }
}

/// Parses an input line as an unsigned 32-bit integer the way a transition
/// decision reads it: white space is trimmed from both ends, and what is
/// left must be an optional `+` followed by decimal digits whose value fits
/// in 32 bits.  Returns `Some` exactly on such lines, `None` on every other.
pub fn parse_u32(s: &str) -> (r: Option<u32>)
    ensures
        r == spec_parse_u32(spec_trim(s@)),
{
    let n: usize = s.unicode_len();
    proof {
        assert(s@.subrange(0, n as int) =~= s@);
    }

    // Skip leading white space.
    let mut lo: usize = 0;
    while lo < n && is_space_char(s.get_char(lo))
        invariant
            lo <= n,
            n == s@.len(),
            trim_start(s@) == trim_start(s@.subrange(lo as int, n as int)),
        decreases n - lo,
    {
        proof {
            assert(s@.subrange(lo as int, n as int).drop_first() =~= s@.subrange(
                lo as int + 1,
                n as int,
            ));
        }
        lo = lo + 1;
    }
    proof {
        assert(trim_start(s@) == s@.subrange(lo as int, n as int));
    }

    // Skip trailing white space.
    let mut hi: usize = n;
    while hi > lo && is_space_char(s.get_char(hi - 1))
        invariant
            lo <= hi <= n,
            n == s@.len(),
            trim_start(s@) == s@.subrange(lo as int, n as int),
            trim_end(s@.subrange(lo as int, n as int)) == trim_end(
                s@.subrange(lo as int, hi as int),
            ),
        decreases hi,
    {
        proof {
            assert(s@.subrange(lo as int, hi as int).drop_last() =~= s@.subrange(
                lo as int,
                hi as int - 1,
            ));
        }
        hi = hi - 1;
    }
    let ghost t = s@.subrange(lo as int, hi as int);
    proof {
        assert(spec_trim(s@) == t);
    }

    // Accept one leading plus sign.
    let mut start: usize = lo;
    if lo < hi && s.get_char(lo) == '+' {
        start = lo + 1;
    }
    let ghost d = s@.subrange(start as int, hi as int);
    proof {
        if lo < hi && s@[lo as int] == '+' {
            assert(t.subrange(1, t.len() as int) =~= d);
        } else {
            assert(t =~= d);
        }
        assert(strip_plus(t) == d);
    }

    if start == hi {
        // Nothing is left: no digits, so the line does not parse.
        return None;
    }

    // Read the digits, most significant first.
    let mut i: usize = start;
    let mut acc: u64 = 0;
    while i < hi
        invariant
            start <= i <= hi <= n,
            start < hi,
            n == s@.len(),
            d == s@.subrange(start as int, hi as int),
            strip_plus(spec_trim(s@)) == d,
            forall|j: int| start <= j < i ==> is_digit(#[trigger] s@[j]),
            acc == digits_value(s@.subrange(start as int, i as int)),
            acc <= u32::MAX,
        decreases hi - i,
    {
        let c: char = s.get_char(i);
        let u: u32 = c as u32;
        if u < 48 || u > 57 {
            // A non-digit within the numeral: the line does not parse.
            proof {
                assert(d[i as int - start as int] == s@[i as int]);
                assert(!all_digits(d));
            }
            return None;
        }
        let v: u64 = (u - 48) as u64;
        proof {
            let pre = s@.subrange(start as int, i as int);
            let cur = s@.subrange(start as int, i as int + 1);
            assert(cur.drop_last() =~= pre);
            assert(cur.last() == s@[i as int]);
            assert(digits_value(cur) == digits_value(pre) * 10 + digit_value(s@[i as int]));
        }
        let next: u64 = acc * 10 + v;
        if next > 0xFFFF_FFFF {
            // The value already exceeds u32::MAX, and further digits can
            // only grow it: the line does not parse.
            proof {
                let k = i as int + 1 - start as int;
                assert(d.subrange(0, k) =~= s@.subrange(start as int, i as int + 1));
                lemma_digits_value_prefix(d, k);
            }
            return None;
        }
        acc = next;
        i = i + 1;
    }
    proof {
        assert(forall|j: int| 0 <= j < d.len() ==> is_digit(#[trigger] d[j]) && d[j] == s@[j
            + start as int]);
        assert(all_digits(d));
    }
    Some(acc as u32)
}

} // verus!
