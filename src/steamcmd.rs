//! The supervised `steamcmd` process's shared state: the located
//! executable, the broadcast of its output lines and the history of the
//! most recent ones, kept equal to the tail of what was published; plus
//! the check of what the spawn produced. Spawning, the background task and
//! teardown are carried out by the asynchronous runtime around this crate.

use crate::framer::views;
use crate::history::{keep_last, lemma_history_keeps_last_lines, push_all, HistoryRing};
use crate::reader::deliver;
use crate::hub::{receives_from, Hub, MAX_QUEUE_CAPACITY};
use std::path::PathBuf;
use tokio::sync::broadcast::Receiver;
use vstd::prelude::*;

verus! {

#[verifier::external_type_specification]
#[verifier::external_body]
pub struct ExPathBuf(PathBuf);

#[verifier::external_type_specification]
#[verifier::external_body]
pub struct ExWhichError(which::Error);

/// The name of the executable looked up on the search path.
pub const STEAMCMD_BINARY: &'static str = "steamcmd";

/// The one argument the process is started with.
pub const STARTUP_ARGUMENT: &'static str = "+login anonymous";

/// Written to the process's standard input at teardown.
pub const QUIT_COMMAND: &'static str = "quit\n";

/// History capacity used when none is given.
pub const DEFAULT_HISTORY_CAPACITY: usize = 200;

/// Interval of the idle flush of a partial line, in milliseconds.
pub const IDLE_FLUSH_MILLIS: u64 = 500;

/// Why the supervisor could not be set up or started.
#[derive(Debug, Clone, Copy, PartialEq, Eq, Structural)]
pub enum SteamCmdError {
    /// The executable is not on the search path.
    CommandNotFound,
    /// The process could not be spawned, or its pipes were not obtained.
    FailedToStart,
}

impl SteamCmdError {
    pub open spec fn spec_message(self) -> Seq<char> {
        match self {
            SteamCmdError::CommandNotFound => "steamcmd not found"@,
            SteamCmdError::FailedToStart => "Failed to start steamcmd process"@,
        }
    }

    /// The human-readable description of the error.
    pub fn message(&self) -> (r: String)
        ensures
            r@ == self.spec_message(),
    {
        broadcast use vstd::string::to_string_from_display_ensures_for_str;

        match self {
            SteamCmdError::CommandNotFound => "steamcmd not found".to_string(),
            SteamCmdError::FailedToStart => "Failed to start steamcmd process".to_string(),
        }
    }
}

/// A history capacity the supervisor can be created with: positive, and
/// small enough for the subscriber queues.
pub open spec fn valid_capacity(c: usize) -> bool {
    0 < c <= MAX_QUEUE_CAPACITY
}

/// The capacity chosen by an optional request.
pub open spec fn capacity_or_default(c: Option<usize>) -> usize {
    match c {
        Some(n) => n,
        None => DEFAULT_HISTORY_CAPACITY,
    }
}

pub fn history_capacity_or_default(c: Option<usize>) -> (r: usize)
    ensures
        r == capacity_or_default(c),
{
    match c {
        Some(n) => n,
        None => DEFAULT_HISTORY_CAPACITY,
    }
}

/// Relies on `which::which`: the first executable of that name on the
/// search path, or an error; what it finds depends on the file system.
#[verifier::external_body]
fn find_on_path(name: &str) -> (r: Result<PathBuf, which::Error>) {
    which::which(name)
}

/// Taking the views of a history's last `cap` lines is taking the last
/// `cap` views.
pub proof fn lemma_views_keep_last(s: Seq<String>, cap: nat)
    ensures
        views(keep_last(s, cap)) == keep_last(views(s), cap),
{
    assert(views(keep_last(s, cap)) =~= keep_last(views(s), cap));
}

/// Trimming what was published before more lines are appended does not
/// change the last `cap` lines.
pub proof fn lemma_keep_last_append(p: Seq<Seq<char>>, v: Seq<Seq<char>>, cap: nat)
    ensures
        keep_last(keep_last(p, cap) + v, cap) == keep_last(p + v, cap),
{
    if p.len() > cap {
        assert(keep_last(keep_last(p, cap) + v, cap) =~= keep_last(p + v, cap));
    }
}

/// The located executable, the broadcast of its output lines, and the
/// history of the most recent of them.
pub struct Supervisor {
    path: PathBuf,
    hub: Hub,
    history: HistoryRing,
    history_capacity: usize,
}

impl Supervisor {
    /// The history holds exactly the last `history_capacity` lines that
    /// were published, in publish order.
    pub closed spec fn wf(&self) -> bool {
        &&& valid_capacity(self.history_capacity)
        &&& self.history.wf()
        &&& self.history.spec_capacity() == self.history_capacity
        &&& self.hub.spec_capacity() == self.history_capacity
        &&& views(self.history@) == keep_last(
            self.hub.spec_published(),
            self.history_capacity as nat,
        )
    }

    pub closed spec fn spec_path(&self) -> PathBuf {
        self.path
    }

    pub closed spec fn spec_history_capacity(&self) -> usize {
        self.history_capacity
    }

    pub closed spec fn spec_queue_capacity(&self) -> nat {
        self.hub.spec_capacity()
    }

    pub closed spec fn spec_hub(&self) -> Hub {
        self.hub
    }

    /// Every line published so far, in order.
    pub open spec fn spec_published(&self) -> Seq<Seq<char>> {
        self.spec_hub().spec_published()
    }

    /// The history, oldest line first.
    pub closed spec fn spec_history(&self) -> Seq<String> {
        self.history@
    }

    /// Looks up `steamcmd` on the search path and sets up the broadcast
    /// of its output. Fails with `CommandNotFound`, spawning nothing, when
    /// the executable is not found.
    pub fn create(history_capacity: Option<usize>) -> (r: Result<Supervisor, SteamCmdError>)
        requires
            valid_capacity(capacity_or_default(history_capacity)),
        ensures
            r matches Err(e) ==> e == SteamCmdError::CommandNotFound,
            r matches Ok(s) ==> {
                &&& s.wf()
                &&& s.spec_history_capacity() == capacity_or_default(history_capacity)
                &&& s.spec_queue_capacity() == capacity_or_default(history_capacity)
                &&& s.spec_history() == Seq::<String>::empty()
                &&& s.spec_published() == Seq::<Seq<char>>::empty()
            },
    {
        let found = find_on_path(STEAMCMD_BINARY);
        Supervisor::from_lookup(found, history_capacity)
    }

    /// Sets up the supervisor from the result of the executable lookup:
    /// `CommandNotFound` exactly when the lookup failed; otherwise the
    /// path found, an empty history, and nothing published yet.
    pub fn from_lookup(found: Result<PathBuf, which::Error>, history_capacity: Option<usize>) -> (r:
        Result<Supervisor, SteamCmdError>)
        requires
            valid_capacity(capacity_or_default(history_capacity)),
        ensures
            found is Err <==> r is Err,
            r matches Err(e) ==> e == SteamCmdError::CommandNotFound,
            r matches Ok(s) ==> {
                &&& s.wf()
                &&& found == Ok::<PathBuf, which::Error>(s.spec_path())
                &&& s.spec_history_capacity() == capacity_or_default(history_capacity)
                &&& s.spec_queue_capacity() == capacity_or_default(history_capacity)
                &&& s.spec_history() == Seq::<String>::empty()
                &&& s.spec_published() == Seq::<Seq<char>>::empty()
            },
    {
        match found {
            Err(_) => Err(SteamCmdError::CommandNotFound),
            Ok(path) => {
                let capacity = history_capacity_or_default(history_capacity);
                let history = HistoryRing::new(capacity);
                let hub = Hub::new(capacity);
                assert(views(history@) =~= keep_last(hub.spec_published(), capacity as nat));
                Ok(Supervisor { path, hub, history, history_capacity: capacity })
            },
        }
    }

    /// Where the executable was found.
    pub fn path(&self) -> (r: &PathBuf)
        ensures
            *r == self.spec_path(),
    {
        &self.path
    }

    pub fn history_capacity(&self) -> (r: usize)
        ensures
            r == self.spec_history_capacity(),
    {
        self.history_capacity
    }

    pub fn queue_capacity(&self) -> (r: usize)
        ensures
            r == self.spec_queue_capacity(),
    {
        self.hub.capacity()
    }

    /// A new, independent receiver of every line published from now on;
    /// earlier lines are only in the history.
    pub fn subscribe(&self) -> (r: Receiver<String>)
        ensures
            receives_from(r, self.spec_hub().spec_sender()),
    {
        self.hub.subscribe()
    }

    /// A copy of the history, oldest line first: the last lines published,
    /// at most the history capacity of them.
    pub fn get_last_lines(&self) -> (r: Vec<String>)
        requires
            self.wf(),
        ensures
            r@ == self.spec_history(),
            views(r@) == keep_last(self.spec_published(), self.spec_history_capacity() as nat),
    {
        self.history.snapshot()
    }

    /// Appends each of `lines` to the history and publishes it, in order.
    pub fn publish_lines(&mut self, lines: Vec<String>)
        requires
            old(self).wf(),
        ensures
            final(self).wf(),
            final(self).spec_path() == old(self).spec_path(),
            final(self).spec_history_capacity() == old(self).spec_history_capacity(),
            final(self).spec_hub().spec_sender() == old(self).spec_hub().spec_sender(),
            final(self).spec_published() == old(self).spec_published() + views(lines@),
            final(self).spec_history() == push_all(
                old(self).spec_history(),
                lines@,
                old(self).spec_history_capacity() as nat,
            ),
    {
        let ghost cap = self.history_capacity as nat;
        let ghost h0 = self.history@;
        let ghost p0 = self.hub.spec_published();
        proof {
            self.history.lemma_bounded();
        }
        deliver(lines, &mut self.history, &mut self.hub);
        proof {
            lemma_history_keeps_last_lines(h0, lines@, cap);
            lemma_views_keep_last(h0 + lines@, cap);
            assert(views(h0 + lines@) =~= views(h0) + views(lines@));
            lemma_keep_last_append(p0, views(lines@), cap);
        }
    }
}

/// Both pipes of a freshly spawned process, or `FailedToStart` when either
/// is missing (the caller then kills the process).
pub fn take_pipes<I, O>(stdin: Option<I>, stdout: Option<O>) -> (r: Result<(I, O), SteamCmdError>)
    ensures
        r is Ok <==> (stdin is Some && stdout is Some),
        r matches Ok(p) ==> stdin == Some(p.0) && stdout == Some(p.1),
        r matches Err(e) ==> e == SteamCmdError::FailedToStart,
{
    match (stdin, stdout) {
        (Some(i), Some(o)) => Ok((i, o)),
        _ => Err(SteamCmdError::FailedToStart),
    }
}

} // verus!
