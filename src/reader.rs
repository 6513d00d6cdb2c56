//! Decisions of the background task that consumes the process's output.
//! The task itself waits for one of: cancellation, an idle-timer tick, or
//! the completion of a read; it hands what happened to `OutputPump::step`
//! and carries out the returned `ReaderStep`.

use crate::framer::{flush_text, frame, idle_flush, opt_lines, views, LineFramer};
use crate::history::{push_all, HistoryRing};
use crate::hub::Hub;
use crate::text::utf8_lossy;
use vstd::prelude::*;

verus! {

/// What the background task observed.
pub enum ReaderEvent {
    /// Teardown asked the task to stop.
    Cancelled,
    /// The idle timer fired: no bytes arrived for one interval.
    Tick,
    /// A read returned these bytes (at least one).
    Data(Vec<u8>),
    /// A read returned zero bytes: the output stream ended.
    Eof,
    /// A read failed.
    ReadFailed,
}

/// What the background task has to do next.
pub struct ReaderStep {
    /// Lines to append to the history and publish, in order.
    pub lines: Vec<String>,
    /// Restart the idle timer (bytes arrived).
    pub reset_timer: bool,
    /// Leave the loop: no further events are expected.
    pub stop: bool,
}

/// The framing state of the background task.
pub struct OutputPump {
    framer: LineFramer,
    stopped: bool,
}

impl View for OutputPump {
    /// The pending partial line, and whether the loop has ended.
    type V = (Seq<char>, bool);

    closed spec fn view(&self) -> (Seq<char>, bool) {
        (self.framer@, self.stopped)
    }
}

impl OutputPump {
    pub fn new() -> (r: OutputPump)
        ensures
            r@ == (Seq::<char>::empty(), false),
    {
        OutputPump { framer: LineFramer::new(), stopped: false }
    }

    pub fn is_stopped(&self) -> (r: bool)
        ensures
            r == self@.1,
    {
        self.stopped
    }

    /// Reacts to one event. Bytes are framed into lines and restart the
    /// idle timer; a tick flushes a stalled partial line without a line
    /// feed; the end of the stream, a read error or cancellation flush
    /// what is pending and stop the loop. After the loop has stopped,
    /// events change nothing.
    pub fn step(&mut self, event: ReaderEvent) -> (r: ReaderStep)
        ensures
            old(self)@.1 ==> {
                &&& final(self)@ == old(self)@
                &&& r.lines@.len() == 0
                &&& !r.reset_timer
                &&& r.stop
            },
            !old(self)@.1 ==> match event {
                ReaderEvent::Data(bytes) => {
                    let (acc, lines) = frame(old(self)@.0, utf8_lossy(bytes@));
                    &&& final(self)@ == (acc, false)
                    &&& views(r.lines@) == lines
                    &&& r.reset_timer
                    &&& !r.stop
                },
                ReaderEvent::Tick => {
                    let (acc, line) = idle_flush(old(self)@.0);
                    &&& final(self)@ == (acc, false)
                    &&& views(r.lines@) == opt_lines(line)
                    &&& !r.reset_timer
                    &&& !r.stop
                },
                _ => {
                    &&& final(self)@ == (Seq::<char>::empty(), true)
                    &&& views(r.lines@) == opt_lines(flush_text(old(self)@.0))
                    &&& !r.reset_timer
                    &&& r.stop
                },
            },
    {
        if self.stopped {
            return ReaderStep { lines: Vec::new(), reset_timer: false, stop: true };
        }
        match event {
            ReaderEvent::Data(bytes) => {
                let lines = self.framer.feed_bytes(bytes.as_slice());
                ReaderStep { lines, reset_timer: true, stop: false }
            },
            ReaderEvent::Tick => {
                let flushed = self.framer.flush_idle();
                let lines = one_or_none(flushed);
                ReaderStep { lines, reset_timer: false, stop: false }
            },
            _ => {
                let flushed = self.framer.finish();
                self.stopped = true;
                let lines = one_or_none(flushed);
                ReaderStep { lines, reset_timer: false, stop: true }
            },
        }
    }
}

/// The lines of an optional line.
fn one_or_none(line: Option<String>) -> (r: Vec<String>)
    ensures
        views(r@) == opt_lines(crate::framer::opt_view(line)),
{
    let mut r: Vec<String> = Vec::new();
    match line {
        Some(l) => {
            let ghost v = l@;
            r.push(l);
            assert(views(r@) =~= seq![v]);
        },
        None => {
            assert(views(r@) =~= Seq::empty());
        },
    }
    r
}

/// Appends each of `lines` to the history and publishes it, in order.
pub fn deliver(lines: Vec<String>, history: &mut HistoryRing, hub: &mut Hub)
    requires
        old(history).wf(),
    ensures
        final(history).wf(),
        final(history).spec_capacity() == old(history).spec_capacity(),
        final(history)@ == push_all(old(history)@, lines@, old(history).spec_capacity()),
        final(hub).spec_published() == old(hub).spec_published() + views(lines@),
        final(hub).spec_sender() == old(hub).spec_sender(),
        final(hub).spec_capacity() == old(hub).spec_capacity(),
{
    let ghost start = history@;
    let ghost sent = hub.spec_published();
    let mut i: usize = 0;
    while i < lines.len()
        invariant
            history.wf(),
            history.spec_capacity() == old(history).spec_capacity(),
            start == old(history)@,
            sent == old(hub).spec_published(),
            hub.spec_sender() == old(hub).spec_sender(),
            hub.spec_capacity() == old(hub).spec_capacity(),
            i <= lines@.len(),
            history@ == push_all(start, lines@.take(i as int), history.spec_capacity()),
            hub.spec_published() == sent + views(lines@.take(i as int)),
        decreases lines@.len() - i,
    {
        proof {
            assert(lines@.take(i + 1).drop_last() == lines@.take(i as int));
            assert(views(lines@.take(i + 1)) =~= views(lines@.take(i as int)).push(lines@[i as int]@));
        }
        history.push(lines[i].clone());
        let _ = hub.publish(lines[i].clone());
        i += 1;
    }
    proof {
        assert(lines@.take(lines@.len() as int) == lines@);
    }
}

} // verus!
