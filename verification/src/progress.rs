//! The progress extractor: from one line of the external tool's output to
//! an optional percentage token.
//!
//! A line carries progress only when it contains the exact marker
//! `[DOWNLOADING]:`. The text after the first marker (up to the next
//! marker, if the line holds another) is trimmed; it must end in `%`, and
//! what precedes the `%` must be a plain decimal numeral. Any failure at
//! any step means "no progress on this line" — never an error, never a
//! dropped line.

use vstd::prelude::*;
use crate::text::{chars_of, trim_range, trim_end_from, trim_start_from};

verus! {

/// The literal that tags progress-bearing lines. The compiled argument
/// list installs a progress template of exactly this shape, so parser and
/// compiler must agree on it character for character.
pub open spec fn spec_marker() -> Seq<char> {
    "[DOWNLOADING]:"@
}

/// The marker occurs at index `i`. The marker is 14 characters long.
pub open spec fn marker_at(s: Seq<char>, i: int) -> bool {
    0 <= i && i + 14 <= s.len() && s.subrange(i, i + 14) == spec_marker()
}

/// Index of the first marker occurrence at or after `i`, if any.
pub open spec fn find_marker_from(s: Seq<char>, i: int) -> Option<int>
    decreases s.len() - i,
{
    if i + 14 > s.len() {
        None
    } else if marker_at(s, i) {
        Some(i)
    } else {
        find_marker_from(s, i + 1)
    }
}

/// A decimal digit.
pub open spec fn is_digit(c: char) -> bool {
    0x30 <= c as u32 && c as u32 <= 0x39
}

/// Every character is a digit or a dot.
pub open spec fn digits_and_dots(s: Seq<char>) -> bool {
    forall|i: int| 0 <= i < s.len() ==> is_digit(s[i]) || s[i] == '.'
}

/// How many characters are dots.
pub open spec fn count_dots(s: Seq<char>) -> nat
    decreases s.len(),
{
    if s.len() == 0 {
        0
    } else {
        count_dots(s.drop_last()) + if s.last() == '.' {
            1nat
        } else {
            0nat
        }
    }
}

/// Some character is a digit.
pub open spec fn has_digit(s: Seq<char>) -> bool {
    exists|i: int| 0 <= i < s.len() && is_digit(s[i])
}

/// An unsigned decimal numeral: digits with at most one dot among them,
/// and at least one digit.
pub open spec fn is_decimal_body(s: Seq<char>) -> bool {
    s.len() > 0 && digits_and_dots(s) && count_dots(s) <= 1 && has_digit(s)
}

/// A decimal numeral with an optional leading sign.
pub open spec fn is_decimal_numeral(s: Seq<char>) -> bool {
    if s.len() > 0 && (s[0] == '+' || s[0] == '-') {
        is_decimal_body(s.drop_first())
    } else {
        is_decimal_body(s)
    }
}

/// The percentage token of one output line: the text between the first
/// marker and the next marker or the end of the line, trimmed of
/// whitespace, with its trailing `%` removed — provided that `%` is there
/// and a decimal numeral precedes it. `None` otherwise.
pub open spec fn spec_progress_token(line: Seq<char>) -> Option<Seq<char>> {
    match find_marker_from(line, 0) {
        None => None,
        Some(m) => {
            let start = m + 14;
            let stop = match find_marker_from(line, start) {
                Some(m2) => m2,
                None => line.len() as int,
            };
            let a = trim_start_from(line, start, stop);
            let b = trim_end_from(line, a, stop);
            if b > a && line[b - 1] == '%' && is_decimal_numeral(line.subrange(a, b - 1)) {
                Some(line.subrange(a, b - 1))
            } else {
                None
            }
        },
    }
}

/// Whether the marker occurs at index `i` of `cs`.
fn marker_matches(cs: &Vec<char>, i: usize) -> (r: bool)
    ensures
        r == marker_at(cs@, i as int),
{
    let m = "[DOWNLOADING]:";
    proof {
        reveal_strlit("[DOWNLOADING]:");
    }
    let mlen = m.unicode_len();
    let n = cs.len();
    if n < mlen || i > n - mlen {
        return false;
    }
    let mut k: usize = 0;
    while k < mlen
        invariant
            mlen == 14,
            mlen == m@.len(),
            m@ == spec_marker(),
            n == cs@.len(),
            i + mlen <= n,
            k <= mlen,
            forall|j: int| 0 <= j < k ==> cs@[i + j] == spec_marker()[j],
        decreases mlen - k,
    {
        if cs[i + k] != m.get_char(k) {
            proof {
                assert(cs@.subrange(i as int, i as int + 14)[k as int] == cs@[i + k]);
            }
            return false;
        }
        k = k + 1;
    }
    proof {
        assert(cs@.subrange(i as int, i as int + 14) =~= spec_marker());
    }
    true
}

/// Finds the first marker occurrence at or after `from`.
fn find_marker(cs: &Vec<char>, from: usize) -> (r: Option<usize>)
    requires
        from <= cs@.len(),
    ensures
        match r {
            Some(j) => find_marker_from(cs@, from as int) == Some(j as int) && from <= j && j + 14
                <= cs@.len(),
            None => find_marker_from(cs@, from as int) is None,
        },
{
    proof {
        reveal_strlit("[DOWNLOADING]:");
    }
    let n = cs.len();
    let mut i = from;
    loop
        invariant
            from <= i <= n,
            n == cs@.len(),
            find_marker_from(cs@, from as int) == find_marker_from(cs@, i as int),
        decreases n - i,
    {
        if n < 14 || i > n - 14 {
            return None;
        }
        if marker_matches(cs, i) {
            return Some(i);
        }
        i = i + 1;
    }
}

/// Whether `cs[lo..hi)` is a decimal numeral with an optional sign.
fn is_decimal_token(cs: &Vec<char>, lo: usize, hi: usize) -> (r: bool)
    requires
        lo <= hi <= cs@.len(),
    ensures
        r == is_decimal_numeral(cs@.subrange(lo as int, hi as int)),
{
    let ghost whole = cs@.subrange(lo as int, hi as int);
    let body_lo: usize = if hi > lo && (cs[lo] == '+' || cs[lo] == '-') {
        lo + 1
    } else {
        lo
    };
    let ghost body = cs@.subrange(body_lo as int, hi as int);
    proof {
        if body_lo != lo {
            assert(whole.drop_first() =~= body);
        }
    }
    if hi == body_lo {
        return false;
    }
    let mut dots: usize = 0;
    let mut saw_digit = false;
    let mut ok = true;
    let mut i = body_lo;
    while i < hi
        invariant
            body_lo <= i <= hi <= cs@.len(),
            body == cs@.subrange(body_lo as int, hi as int),
            dots <= i - body_lo,
            dots == count_dots(cs@.subrange(body_lo as int, i as int)),
            saw_digit == has_digit(cs@.subrange(body_lo as int, i as int)),
            ok == digits_and_dots(cs@.subrange(body_lo as int, i as int)),
        decreases hi - i,
    {
        let c = cs[i];
        let ghost prefix = cs@.subrange(body_lo as int, i as int);
        let ghost next = cs@.subrange(body_lo as int, i as int + 1);
        proof {
            assert(next.drop_last() =~= prefix);
            assert(next.last() == cs@[i as int]);
            assert(forall|j: int| 0 <= j < prefix.len() ==> next[j] == prefix[j]);
        }
        let u = c as u32;
        if 0x30 <= u && u <= 0x39 {
            saw_digit = true;
        } else if c == '.' {
            dots = dots + 1;
        } else {
            ok = false;
        }
        proof {
            if !(is_digit(cs@[i as int]) || cs@[i as int] == '.') {
                assert(!digits_and_dots(next));
            }
            if is_digit(cs@[i as int]) {
                assert(has_digit(next));
            }
            if has_digit(prefix) {
                let w = choose|j: int| 0 <= j < prefix.len() && is_digit(prefix[j]);
                assert(is_digit(next[w]));
            }
            if !has_digit(prefix) && !is_digit(cs@[i as int]) {
                assert(forall|j: int| 0 <= j < next.len() ==> !is_digit(next[j]));
            }
        }
        i = i + 1;
    }
    proof {
        assert(cs@.subrange(body_lo as int, hi as int) == body);
    }
    let body_ok = ok && dots <= 1 && saw_digit;
    proof {
        assert(body_ok == is_decimal_body(body));
        if body_lo != lo {
            assert(whole.len() > 0 && (whole[0] == '+' || whole[0] == '-'));
            assert(whole.drop_first() =~= body);
        } else {
            assert(whole =~= body);
        }
    }
    body_ok
}

/// Extracts the progress percentage token from one output line, exactly as
/// `spec_progress_token` describes; `None` on any malformed line.
pub fn parse_progress(line: &str) -> (r: Option<String>)
    ensures
        r.deep_view() == spec_progress_token(line@),
{
    let cs = chars_of(line);
    let n = cs.len();
    proof {
        reveal_strlit("[DOWNLOADING]:");
    }
    let m = match find_marker(&cs, 0) {
        None => {
            return None;
        },
        Some(m) => m,
    };
    let start = m + 14;
    let stop = match find_marker(&cs, start) {
        Some(m2) => m2,
        None => n,
    };
    let (a, b) = trim_range(&cs, start, stop);
    if b > a && cs[b - 1] == '%' {
        if is_decimal_token(&cs, a, b - 1) {
            let tok = line.substring_char(a, b - 1);
            Some(tok.to_owned())
        } else {
            None
        }
    } else {
        None
    }
}

} // verus!
