//! Small text primitives over `String` / `&str` that the framing logic
//! needs and that vstd does not specify.

use vstd::prelude::*;

verus! {

/// Whether `c` has the Unicode `White_Space` property: the ASCII controls
/// U+0009 to U+000D, the space, U+0085, U+00A0, U+1680, U+2000 to U+200A,
/// U+2028, U+2029, U+202F, U+205F and U+3000.
pub open spec fn char_is_whitespace(c: char) -> bool {
    let n = c as u32;
    (0x09 <= n <= 0x0d) || n == 0x20 || n == 0x85 || n == 0xa0 || n == 0x1680 || (0x2000 <= n
        <= 0x200a) || n == 0x2028 || n == 0x2029 || n == 0x202f || n == 0x205f || n == 0x3000
}

/// A sequence of characters is blank when `str::trim` would leave nothing
/// of it: every character is whitespace.
pub open spec fn is_blank(s: Seq<char>) -> bool {
    forall|i: int| 0 <= i < s.len() ==> #[trigger] char_is_whitespace(s[i])
}

/// Relies on `char::is_whitespace`: true exactly of the characters with
/// the Unicode `White_Space` property.
#[verifier::external_body]
pub(crate) fn is_whitespace(c: char) -> (r: bool)
    ensures
        r == char_is_whitespace(c),
{
    c.is_whitespace()
}

/// The text that `String::from_utf8_lossy` makes of the bytes `b`.
pub uninterp spec fn utf8_lossy(b: Seq<u8>) -> Seq<char>;

/// Relies on `String::from_utf8_lossy`: decodes `b` as UTF-8, with a
/// replacement character for each invalid sequence; ASCII bytes decode to
/// the characters of the same code.
#[verifier::external_body]
pub(crate) fn decode_lossy(b: &[u8]) -> (r: String)
    ensures
        r@ == utf8_lossy(b@),
        (forall|i: int| 0 <= i < b@.len() ==> #[trigger] b@[i] < 128) ==> r@ == b@.map_values(
            |x: u8| x as char,
        ),
{
    String::from_utf8_lossy(b).into_owned()
}

/// Relies on `String::push`: appends one character at the end.
#[verifier::external_body]
pub(crate) fn push_char(s: &mut String, c: char)
    ensures
        final(s)@ == old(s)@.push(c),
{
    s.push(c)
}

/// Whether `s` consists of whitespace only (as `s.trim().is_empty()`).
pub fn blank(s: &str) -> (r: bool)
    ensures
        r == is_blank(s@),
{
    let mut all_space = true;
    for c in it: s.chars()
        invariant
            it.seq() == s@,
            all_space == is_blank(s@.take(it.index() as int)),
    {
        let ghost pre = s@.take(it.index() as int);
        let ghost next = s@.take(it.index() + 1);
        proof {
            assert(next == pre.push(c));
        }
        if !is_whitespace(c) {
            all_space = false;
            assert(!is_blank(next)) by {
                assert(!char_is_whitespace(next[pre.len() as int]));
            }
        } else {
            assert(is_blank(next) == is_blank(pre)) by {
                if is_blank(pre) {
                    assert forall|i: int| 0 <= i < next.len() implies #[trigger] char_is_whitespace(next[i]) by {
                        if i < pre.len() {
                            assert(next[i] == pre[i]);
                        }
                    }
                } else {
                    let j = choose|j: int| 0 <= j < pre.len() && !char_is_whitespace(pre[j]);
                    assert(next[j] == pre[j]);
                }
            }
        }
    }
    proof {
        assert(s@.take(s@.len() as int) == s@);
    }
    all_space
}

} // verus!
