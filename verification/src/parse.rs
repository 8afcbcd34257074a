//! Filename parsing: a file stem encodes the capture date and time, and the
//! parser turns it into a human-readable caption.
//!
//! A stem is split on `'_'` into at most five segments (the first four
//! underscores split, the remainder stays verbatim). Exactly five segments are
//! required; the third must be exactly eight characters (`YYYYMMDD`) and the
//! fourth at least six (`HHMMSS...`). The caption is
//! `"DD.MM.YYYY, HH:MM:SS"`. No calendar validation is done: the parser is a
//! pure string-slicing transform.

use vstd::prelude::*;

use crate::error::Error;

verus! {

/// Index of the first `'_'` at or after `from`, or the length of `s` when
/// there is none (or `from` is past the end).
pub open spec fn next_sep(s: Seq<char>, from: int) -> int
    decreases s.len() - from,
{
    if from < 0 || from >= s.len() {
        s.len() as int
    } else if s[from] == '_' {
        from
    } else {
        next_sep(s, from + 1)
    }
}

/// Position of the first underscore.
pub open spec fn sep1(s: Seq<char>) -> int {
    next_sep(s, 0)
}

/// Position of the second underscore (or the length, when missing).
pub open spec fn sep2(s: Seq<char>) -> int {
    next_sep(s, sep1(s) + 1)
}

/// Position of the third underscore (or the length, when missing).
pub open spec fn sep3(s: Seq<char>) -> int {
    next_sep(s, sep2(s) + 1)
}

/// Position of the fourth underscore (or the length, when missing).
pub open spec fn sep4(s: Seq<char>) -> int {
    next_sep(s, sep3(s) + 1)
}

/// A stem is well-formed when splitting at most four times yields five
/// segments (so a fourth underscore exists), the third segment has exactly
/// eight characters and the fourth at least six.
pub open spec fn stem_ok(s: Seq<char>) -> bool {
    sep4(s) < s.len() && sep3(s) - sep2(s) == 9 && sep4(s) - sep3(s) >= 7
}

/// The caption a well-formed stem parses to: `"DD.MM.YYYY, HH:MM:SS"`, sliced
/// verbatim out of the third (date) and fourth (time) segments.
pub open spec fn caption_of(s: Seq<char>) -> Seq<char>
    recommends
        stem_ok(s),
{
    let d = sep2(s) + 1;
    let t = sep3(s) + 1;
    s.subrange(d + 6, d + 8) + "."@ + s.subrange(d + 4, d + 6) + "."@ + s.subrange(d, d + 4)
        + ", "@ + s.subrange(t, t + 2) + ":"@ + s.subrange(t + 2, t + 4) + ":"@ + s.subrange(
        t + 4,
        t + 6,
    )
}

/// The message carried by the error a malformed stem is rejected with.
pub open spec fn bad_stem_message(s: Seq<char>) -> Seq<char> {
    "File: \""@ + s + "\" has wrong name format"@
}

/// Scans for the first underscore at or after `from`.
fn next_sep_at(s: &str, from: usize, n: usize) -> (r: usize)
    requires
        n == s@.len(),
        from <= n,
    ensures
        r == next_sep(s@, from as int),
        from <= r <= n,
{
    let mut i: usize = from;
    while i < n
        invariant
            from <= i <= n,
            n == s@.len(),
            next_sep(s@, from as int) == next_sep(s@, i as int),
        decreases n - i,
    {
        if s.get_char(i) == '_' {
            assert(next_sep(s@, i as int) == i);
            return i;
        }
        assert(next_sep(s@, i as int) == next_sep(s@, i + 1 as int));
        i = i + 1;
    }
    assert(next_sep(s@, i as int) == n as int);
    n
}

/// Extracts the date/time caption from a file stem.
///
/// Returns the caption exactly when the stem is well-formed, and a
/// `FormatError` naming the offending stem otherwise.
pub fn parse_date(name: &str) -> (r: Result<String, Error>)
    ensures
        r is Ok <==> stem_ok(name@),
        r matches Ok(c) ==> c@ == caption_of(name@),
        r matches Err(e) ==> e is FormatError && e.spec_message() == bad_stem_message(name@),
{
    let n = name.unicode_len();
    let u1 = next_sep_at(name, 0, n);
    let u2 = if u1 == n {
        n
    } else {
        next_sep_at(name, u1 + 1, n)
    };
    assert(u2 == sep2(name@));
    let u3 = if u2 == n {
        n
    } else {
        next_sep_at(name, u2 + 1, n)
    };
    assert(u3 == sep3(name@));
    let u4 = if u3 == n {
        n
    } else {
        next_sep_at(name, u3 + 1, n)
    };
    assert(u4 == sep4(name@));
    if u4 >= n || u3 - u2 != 9 || u4 - u3 < 7 {
        let msg = String::from_str("File: \"").concat(name).concat("\" has wrong name format");
        return Err(Error::FormatError(msg));
    }
    let d = u2 + 1;
    let t = u3 + 1;
    let mut cap = String::from_str(name.substring_char(d + 6, d + 8));
    cap.append(".");
    cap.append(name.substring_char(d + 4, d + 6));
    cap.append(".");
    cap.append(name.substring_char(d, d + 4));
    cap.append(", ");
    cap.append(name.substring_char(t, t + 2));
    cap.append(":");
    cap.append(name.substring_char(t + 2, t + 4));
    cap.append(":");
    cap.append(name.substring_char(t + 4, t + 6));
    assert(cap@ =~= caption_of(name@));
    Ok(cap)
}

} // verus!
