//! Reassembly of a raw output stream into lines: split on line feeds,
//! strip escape sequences, drop blank lines, and flush a pending partial
//! line (a prompt) when the stream goes idle or ends.

use crate::ansi::{strip_ansi, strip_ansi_codes, strip_scan};
use crate::text::{blank, char_is_whitespace, decode_lossy, is_blank, push_char, utf8_lossy};
use vstd::prelude::*;

verus! {

/// The view of each string of `v`.
pub open spec fn views(v: Seq<String>) -> Seq<Seq<char>> {
    v.map_values(|s: String| s@)
}

/// The view of an optional string.
pub open spec fn opt_view(o: Option<String>) -> Option<Seq<char>> {
    match o {
        Some(s) => Some(s@),
        None => None,
    }
}

/// The lines an optional line contributes: none or one.
pub open spec fn opt_lines(o: Option<Seq<char>>) -> Seq<Seq<char>> {
    match o {
        Some(l) => seq![l],
        None => Seq::empty(),
    }
}

/// The line published when a line feed closes the accumulated text `acc`:
/// the stripped text with a line feed appended, unless it is blank.
pub open spec fn close_line(acc: Seq<char>) -> Option<Seq<char>> {
    let clean = strip_ansi(acc);
    if is_blank(clean) {
        None
    } else {
        Some(clean.push('\n'))
    }
}

/// The line published when `acc` is flushed without a line break having
/// been seen: the stripped text as it is, unless it is blank.
pub open spec fn flush_text(acc: Seq<char>) -> Option<Seq<char>> {
    let clean = strip_ansi(acc);
    if is_blank(clean) {
        None
    } else {
        Some(clean)
    }
}

/// Feeding `input` to a framer whose accumulator holds `acc`: the new
/// accumulator and the lines closed on the way, in order.
pub open spec fn frame(acc: Seq<char>, input: Seq<char>) -> (Seq<char>, Seq<Seq<char>>)
    decreases input.len(),
{
    if input.len() == 0 {
        (acc, Seq::empty())
    } else {
        let (pending, lines) = frame(acc, input.drop_last());
        let c = input.last();
        if c == '\n' {
            (Seq::empty(), lines + opt_lines(close_line(pending)))
        } else {
            (pending.push(c), lines)
        }
    }
}

/// The idle flush of accumulator `acc`: a blank accumulator is left as it
/// is and nothing is published; otherwise it is emptied and its stripped
/// text is published when that is not blank.
pub open spec fn idle_flush(acc: Seq<char>) -> (Seq<char>, Option<Seq<char>>) {
    if is_blank(acc) {
        (acc, None)
    } else {
        (Seq::empty(), flush_text(acc))
    }
}

/// Every character kept by the escape stripping comes from its input.
pub proof fn lemma_strip_keeps_input_chars(s: Seq<char>)
    ensures
        forall|i: int|
            0 <= i < strip_scan(s).0.len() ==> s.contains(#[trigger] strip_scan(s).0[i]),
    decreases s.len(),
{
    if s.len() > 0 {
        let p = s.drop_last();
        lemma_strip_keeps_input_chars(p);
        assert forall|i: int| 0 <= i < strip_scan(s).0.len() implies s.contains(
            #[trigger] strip_scan(s).0[i],
        ) by {
            if i < strip_scan(p).0.len() {
                let j = choose|j: int| 0 <= j < p.len() && p[j] == strip_scan(p).0[i];
                assert(s[j] == p[j]);
            } else {
                assert(s[s.len() - 1] == s.last());
            }
        }
    }
}

/// Framing never leaves a line feed in the accumulator.
pub proof fn lemma_frame_pending_has_no_line_feed(acc: Seq<char>, input: Seq<char>)
    requires
        !acc.contains('\n'),
    ensures
        !frame(acc, input).0.contains('\n'),
    decreases input.len(),
{
    if input.len() > 0 {
        lemma_frame_pending_has_no_line_feed(acc, input.drop_last());
        let p = frame(acc, input.drop_last()).0;
        if input.last() != '\n' {
            assert forall|i: int| 0 <= i < p.push(input.last()).len() implies p.push(
                input.last(),
            )[i] != '\n' by {
                if i < p.len() {
                    assert(p.push(input.last())[i] == p[i]);
                }
            }
        }
    }
}

/// A partial line that is still pending when the input stalls is
/// published by the idle flush exactly once: the flush publishes its
/// stripped text, with no line feed added or present, and empties the
/// accumulator, so a further flush publishes nothing.
pub proof fn lemma_idle_flush_publishes_once(acc: Seq<char>)
    requires
        !acc.contains('\n'),
        !is_blank(strip_ansi(acc)),
    ensures
        idle_flush(acc) == (Seq::<char>::empty(), Some(strip_ansi(acc))),
        !strip_ansi(acc).contains('\n'),
        idle_flush(idle_flush(acc).0).1 is None,
{
    lemma_strip_keeps_input_chars(acc);
    let clean = strip_ansi(acc);
    if is_blank(acc) {
        assert forall|i: int| 0 <= i < clean.len() implies #[trigger] char_is_whitespace(
            clean[i],
        ) by {
            let j = choose|j: int| 0 <= j < acc.len() && acc[j] == clean[i];
        }
    }
    if clean.contains('\n') {
        let i = choose|i: int| 0 <= i < clean.len() && clean[i] == '\n';
        assert(acc.contains(clean[i]));
    }
    assert(is_blank(Seq::<char>::empty()));
}

/// Text without a line feed only grows the accumulator.
pub proof fn lemma_frame_without_line_feed(acc: Seq<char>, input: Seq<char>)
    requires
        !input.contains('\n'),
    ensures
        frame(acc, input) == (acc + input, Seq::<Seq<char>>::empty()),
    decreases input.len(),
{
    if input.len() > 0 {
        let p = input.drop_last();
        assert(!p.contains('\n')) by {
            if p.contains('\n') {
                let j = choose|j: int| 0 <= j < p.len() && p[j] == '\n';
                assert(input[j] == p[j]);
            }
        }
        lemma_frame_without_line_feed(acc, p);
        assert(input.last() != '\n') by {
            assert(input[input.len() - 1] == input.last());
        }
        assert((acc + p).push(input.last()) =~= acc + input);
    }
}

/// From an empty accumulator (as an idle flush leaves it), text `q`
/// followed by a line feed yields exactly the line closed from `q` alone:
/// nothing flushed earlier is repeated or prefixed.
pub proof fn lemma_line_after_flush(q: Seq<char>)
    requires
        !q.contains('\n'),
    ensures
        frame(Seq::empty(), q.push('\n')) == (Seq::<char>::empty(), opt_lines(close_line(q))),
{
    lemma_frame_without_line_feed(Seq::empty(), q);
    assert(q.push('\n').drop_last() =~= q);
    assert(Seq::<char>::empty() + q =~= q);
    assert(Seq::<Seq<char>>::empty() + opt_lines(close_line(q)) =~= opt_lines(close_line(q)));
}

/// A red-coloured line is framed as its plain text with a line feed.
pub proof fn lemma_color_line_framed()
    ensures
        frame(Seq::empty(), "\x1b[31mHello\x1b[0m\n"@) == (Seq::<char>::empty(), seq!["Hello\n"@]),
{
    reveal_strlit("\x1b[31mHello\x1b[0m\n");
    reveal_strlit("Hello\n");
    let input = "\x1b[31mHello\x1b[0m\n"@;
    let q = input.drop_last();
    assert(q =~= seq!['\x1b', '[', '3', '1', 'm', 'H', 'e', 'l', 'l', 'o', '\x1b', '[', '0', 'm']);
    assert(!q.contains('\n')) by {
        if q.contains('\n') {
            let j = choose|j: int| 0 <= j < q.len() && q[j] == '\n';
        }
    }
    assert(input =~= q.push('\n'));
    lemma_line_after_flush(q);
    reveal_with_fuel(strip_scan, 15);
    assert(q.drop_last() =~= seq!['\x1b', '[', '3', '1', 'm', 'H', 'e', 'l', 'l', 'o', '\x1b', '[', '0']);
    let hello = seq!['H', 'e', 'l', 'l', 'o'];
    assert(strip_ansi(q) =~= hello);
    assert(!char_is_whitespace(hello[0]));
    assert(hello.push('\n') =~= "Hello\n"@);
}

/// Accumulates the text of the current, not yet terminated line.
pub struct LineFramer {
    partial: String,
}

impl View for LineFramer {
    type V = Seq<char>;

    closed spec fn view(&self) -> Seq<char> {
        self.partial@
    }
}

impl LineFramer {
    /// A framer with an empty accumulator.
    pub fn new() -> (r: LineFramer)
        ensures
            r@ == Seq::<char>::empty(),
    {
        LineFramer { partial: String::new() }
    }

    /// The text accumulated since the last line break or flush.
    pub fn pending(&self) -> (r: &str)
        ensures
            r@ == self@,
    {
        self.partial.as_str()
    }

    /// Feeds the characters of `chunk`; returns the lines that line feeds
    /// in it closed, each ending with a line feed.
    pub fn feed(&mut self, chunk: &str) -> (lines: Vec<String>)
        ensures
            (final(self)@, views(lines@)) == frame(old(self)@, chunk@),
    {
        let mut lines: Vec<String> = Vec::new();
        for ch in it: chunk.chars()
            invariant
                it.seq() == chunk@,
                (self@, views(lines@)) == frame(old(self)@, chunk@.take(it.index() as int)),
        {
            let ghost pre_lines = lines@;
            proof {
                assert(chunk@.take(it.index() + 1).drop_last() == chunk@.take(it.index() as int));
            }
            if ch == '\n' {
                let mut clean = strip_ansi_codes(self.partial.as_str());
                if !blank(clean.as_str()) {
                    push_char(&mut clean, '\n');
                    let ghost line = clean@;
                    lines.push(clean);
                    assert(views(lines@) =~= views(pre_lines) + seq![line]);
                } else {
                    assert(views(lines@) =~= views(pre_lines) + Seq::empty());
                }
                self.partial = String::new();
            } else {
                push_char(&mut self.partial, ch);
            }
        }
        proof {
            assert(chunk@.take(chunk@.len() as int) == chunk@);
        }
        lines
    }

    /// Decodes `bytes` (invalid UTF-8 becomes replacement characters) and
    /// feeds the text as `feed` does.
    pub fn feed_bytes(&mut self, bytes: &[u8]) -> (lines: Vec<String>)
        ensures
            (final(self)@, views(lines@)) == frame(old(self)@, utf8_lossy(bytes@)),
    {
        let text = decode_lossy(bytes);
        self.feed(text.as_str())
    }

    /// Flushes the accumulator after a stall in the input: see `idle_flush`.
    pub fn flush_idle(&mut self) -> (r: Option<String>)
        ensures
            (final(self)@, opt_view(r)) == idle_flush(old(self)@),
    {
        if blank(self.partial.as_str()) {
            None
        } else {
            let r = self.finish();
            r
        }
    }

    /// Flushes whatever is accumulated, at the end of the stream: the
    /// stripped text without a line feed, unless it is blank.
    pub fn finish(&mut self) -> (r: Option<String>)
        ensures
            final(self)@ == Seq::<char>::empty(),
            opt_view(r) == flush_text(old(self)@),
    {
        let clean = strip_ansi_codes(self.partial.as_str());
        self.partial = String::new();
        if blank(clean.as_str()) {
            None
        } else {
            Some(clean)
        }
    }
}

} // verus!
