//! Bounded, insertion-ordered history of the most recent output lines.

use std::collections::VecDeque;
use vstd::prelude::*;

verus! {

/// Of `s`, the last `cap` items (all of them when there are fewer).
pub open spec fn keep_last<T>(s: Seq<T>, cap: nat) -> Seq<T> {
    if s.len() > cap {
        s.subrange(s.len() - cap, s.len() as int)
    } else {
        s
    }
}

/// The history after appending each of `lines` in turn to `h`, a history
/// bounded by `cap`.
pub open spec fn push_all<T>(h: Seq<T>, lines: Seq<T>, cap: nat) -> Seq<T>
    decreases lines.len(),
{
    if lines.len() == 0 {
        h
    } else {
        keep_last(push_all(h, lines.drop_last(), cap).push(lines.last()), cap)
    }
}

/// Trimming to the last `cap` items before an append changes nothing about
/// what is left after trimming again.
pub proof fn lemma_keep_last_push<T>(s: Seq<T>, x: T, cap: nat)
    requires
        0 < cap,
    ensures
        keep_last(keep_last(s, cap).push(x), cap) == keep_last(s.push(x), cap),
{
    if s.len() > cap {
        let t = keep_last(s, cap);
        assert(keep_last(t.push(x), cap) =~= keep_last(s.push(x), cap));
    }
}

/// Appending lines one by one to a bounded history leaves exactly the last
/// `cap` lines of the old history followed by the new lines, oldest first,
/// and never more than `cap` lines.
pub proof fn lemma_history_keeps_last_lines<T>(h: Seq<T>, lines: Seq<T>, cap: nat)
    requires
        0 < cap,
        h.len() <= cap,
    ensures
        push_all(h, lines, cap) == keep_last(h + lines, cap),
        push_all(h, lines, cap).len() <= cap,
    decreases lines.len(),
{
    if lines.len() == 0 {
        assert(h + lines =~= h);
    } else {
        lemma_history_keeps_last_lines(h, lines.drop_last(), cap);
        lemma_keep_last_push(h + lines.drop_last(), lines.last(), cap);
        assert((h + lines.drop_last()).push(lines.last()) =~= h + lines);
    }
}

/// A ring of at most `capacity` lines, oldest first. Appending past the
/// capacity evicts from the front.
pub struct HistoryRing {
    lines: VecDeque<String>,
    capacity: usize,
}

impl View for HistoryRing {
    type V = Seq<String>;

    closed spec fn view(&self) -> Seq<String> {
        self.lines@
    }
}

impl HistoryRing {
    pub closed spec fn wf(&self) -> bool {
        &&& 0 < self.capacity
        &&& self.lines@.len() <= self.capacity
    }

    pub closed spec fn spec_capacity(&self) -> nat {
        self.capacity as nat
    }

    /// A well-formed history is within its positive capacity.
    pub proof fn lemma_bounded(&self)
        requires
            self.wf(),
        ensures
            0 < self.spec_capacity(),
            self@.len() <= self.spec_capacity(),
    {
    }

    /// An empty history that keeps at most `capacity` lines.
    pub fn new(capacity: usize) -> (r: HistoryRing)
        requires
            0 < capacity,
        ensures
            r.wf(),
            r@ == Seq::<String>::empty(),
            r.spec_capacity() == capacity,
    {
        HistoryRing { lines: VecDeque::new(), capacity }
    }

    pub fn capacity(&self) -> (r: usize)
        ensures
            r == self.spec_capacity(),
    {
        self.capacity
    }

    pub fn len(&self) -> (r: usize)
        requires
            self.wf(),
        ensures
            r == self@.len(),
    {
        self.lines.len()
    }

    /// Appends `line`; when that makes the history longer than its
    /// capacity, the oldest line is evicted.
    pub fn push(&mut self, line: String)
        requires
            old(self).wf(),
        ensures
            final(self).wf(),
            final(self).spec_capacity() == old(self).spec_capacity(),
            final(self)@ == keep_last(old(self)@.push(line), old(self).spec_capacity()),
    {
        let ghost pushed = self@.push(line);
        self.lines.push_back(line);
        if self.lines.len() > self.capacity {
            let _ = self.lines.pop_front();
            assert(self@ == pushed.subrange(pushed.len() - self.capacity, pushed.len() as int));
        }
    }

    /// Appends each of `lines` in order, as `push` does.
    pub fn push_lines(&mut self, lines: Vec<String>)
        requires
            old(self).wf(),
        ensures
            final(self).wf(),
            final(self).spec_capacity() == old(self).spec_capacity(),
            final(self)@ == push_all(old(self)@, lines@, old(self).spec_capacity()),
    {
        let ghost start = self@;
        let mut i: usize = 0;
        while i < lines.len()
            invariant
                self.wf(),
                self.spec_capacity() == old(self).spec_capacity(),
                start == old(self)@,
                i <= lines@.len(),
                self@ == push_all(start, lines@.take(i as int), self.spec_capacity()),
            decreases lines@.len() - i,
        {
            proof {
                assert(lines@.take(i + 1).drop_last() == lines@.take(i as int));
            }
            self.push(lines[i].clone());
            i += 1;
        }
        proof {
            assert(lines@.take(lines@.len() as int) == lines@);
        }
    }

    /// A copy of the history, oldest line first.
    pub fn snapshot(&self) -> (r: Vec<String>)
        requires
            self.wf(),
        ensures
            r@ == self@,
    {
        let mut out: Vec<String> = Vec::new();
        let mut i: usize = 0;
        while i < self.lines.len()
            invariant
                i <= self@.len(),
                out@ == self@.take(i as int),
            decreases self@.len() - i,
        {
            out.push(self.lines[i].clone());
            i += 1;
            assert(out@ == self@.take(i as int));
        }
        assert(self@.take(self@.len() as int) == self@);
        out
    }
}

} // verus!
