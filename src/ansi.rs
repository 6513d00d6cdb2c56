//! Removal of SGR terminal escape sequences (`ESC ... m`).

use crate::text::push_char;
use vstd::prelude::*;

verus! {

/// The escape character that opens a terminal control sequence.
pub const ESCAPE: char = '\x1b';

/// Scans `s` left to right and returns the characters kept so far together
/// with whether the scan currently stands inside an escape sequence.
/// An escape character opens a sequence; every character up to and
/// including the next `'m'` is discarded; all others are kept.
pub open spec fn strip_scan(s: Seq<char>) -> (Seq<char>, bool)
    decreases s.len(),
{
    if s.len() == 0 {
        (Seq::empty(), false)
    } else {
        let (kept, in_escape) = strip_scan(s.drop_last());
        let c = s.last();
        if c == ESCAPE {
            (kept, true)
        } else if in_escape {
            (kept, c != 'm')
        } else {
            (kept.push(c), false)
        }
    }
}

/// The text of `s` with its escape sequences removed.
pub open spec fn strip_ansi(s: Seq<char>) -> Seq<char> {
    strip_scan(s).0
}

/// Removes every escape sequence of `s`: from an escape character up to and
/// including the next `'m'`. An unterminated sequence swallows the rest.
pub fn strip_ansi_codes(s: &str) -> (r: String)
    ensures
        r@ == strip_ansi(s@),
{
    let mut result = String::new();
    let mut in_escape = false;
    for ch in it: s.chars()
        invariant
            it.seq() == s@,
            (result@, in_escape) == strip_scan(s@.take(it.index() as int)),
    {
        proof {
            assert(s@.take(it.index() + 1).drop_last() == s@.take(it.index() as int));
        }
        if ch == ESCAPE {
            in_escape = true;
        } else if in_escape {
            if ch == 'm' {
                in_escape = false;
            }
        } else {
            push_char(&mut result, ch);
        }
    }
    proof {
        assert(s@.take(s@.len() as int) == s@);
    }
    result
}

} // verus!
