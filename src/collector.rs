//! Collecting one reply: lines come from the debugger's two output streams in
//! arrival order, and the reply is complete when its collection policy is met,
//! when its timeout has elapsed, or when a stream closes.

use crate::command::{count_reached, wants_nothing, CollectionPolicy};
use crate::text::trim_of;
use vstd::prelude::*;

verus! {

/// Relies on `str::trim`: the line without its leading and trailing white
/// space, as Unicode's White_Space property defines it.
#[verifier::external_body]
fn trim_line(s: &str) -> (r: String)
    ensures
        r@ == trim_of(s@),
{
    s.trim().to_string()
}

/// What the streams hand to a collection.
#[derive(Debug, Clone, PartialEq, Eq)]
pub enum StreamEvent {
    /// A line was read from either stream, line ending included.
    Line(String),
    /// A stream reported end-of-stream, or a read failed.
    Closed,
    /// Nothing came; the wait for a line ended because time passed.
    Quiet,
}

/// The model of a collection in progress.
pub struct CollectorState {
    pub policy: CollectionPolicy,
    pub timeout_ms: nat,
    pub lines: Seq<Seq<char>>,
    pub timed_out: bool,
    pub closed: bool,
    pub finished: bool,
}

/// A collection is finished exactly when the policy asks for nothing, when
/// enough lines have come, when its timeout elapsed, or when a stream closed.
pub open spec fn finished_when(s: CollectorState) -> bool {
    s.finished == (wants_nothing(s.policy) || count_reached(s.policy, s.lines.len())
        || s.timed_out || s.closed)
}

/// Under an unbounded policy lines alone never end a collection: one that
/// finished with its streams open did so because its timeout elapsed.
pub proof fn lemma_unbounded_ends_only_on_timeout(s: CollectorState)
    requires
        finished_when(s),
        s.policy == CollectionPolicy::Unbounded,
        s.finished,
        !s.closed,
    ensures
        s.timed_out,
{
}

/// The text of each line of a frame.
pub open spec fn frame_view(v: Seq<String>) -> Seq<Seq<char>> {
    v.map_values(|l: String| l@)
}

/// The reply to one request, as it is being collected.
pub struct ResponseCollector {
    policy: CollectionPolicy,
    timeout_ms: u64,
    lines: Vec<String>,
    timed_out: bool,
    closed: bool,
    finished: bool,
}

impl View for ResponseCollector {
    type V = CollectorState;

    closed spec fn view(&self) -> CollectorState {
        CollectorState {
            policy: self.policy,
            timeout_ms: self.timeout_ms as nat,
            lines: frame_view(self.lines@),
            timed_out: self.timed_out,
            closed: self.closed,
            finished: self.finished,
        }
    }
}

impl ResponseCollector {
    /// Starts collecting under `policy` for at most `timeout_ms` milliseconds.
    /// Under a policy that asks for no line the collection is finished at
    /// once, with an empty frame: nothing is awaited.
    pub fn new(policy: CollectionPolicy, timeout_ms: u64) -> (r: Self)
        ensures
            r@.policy == policy,
            r@.timeout_ms == timeout_ms,
            r@.lines.len() == 0,
            !r@.timed_out,
            !r@.closed,
            r@.finished == wants_nothing(policy),
            finished_when(r@),
    {
        let finished = !policy.expects_response();
        ResponseCollector {
            policy,
            timeout_ms,
            lines: Vec::new(),
            timed_out: false,
            closed: false,
            finished,
        }
    }

    /// The collection needs no more input.
    pub fn is_finished(&self) -> (r: bool)
        ensures
            r == self@.finished,
    {
        self.finished
    }

    /// A stream closed during the collection.
    pub fn stream_closed(&self) -> (r: bool)
        ensures
            r == self@.closed,
    {
        self.closed
    }

    /// How much longer to wait for a line, `elapsed_ms` after the start.
    pub fn remaining_ms(&self, elapsed_ms: u64) -> (r: u64)
        ensures
            r == (if elapsed_ms >= self@.timeout_ms {
                0
            } else {
                self@.timeout_ms - elapsed_ms
            }),
    {
        if elapsed_ms >= self.timeout_ms {
            0
        } else {
            self.timeout_ms - elapsed_ms
        }
    }

    /// Takes what the streams handed over `elapsed_ms` after the start. A
    /// finished collection takes nothing more. Once the timeout has elapsed the
    /// collection finishes with what it has. Otherwise a line is appended,
    /// trimmed, and finishes the collection where it completes the count; a
    /// closed stream finishes it at once; a quiet wake changes nothing.
    pub fn on_event(&mut self, event: StreamEvent, elapsed_ms: u64)
        requires
            finished_when(old(self)@),
        ensures
            finished_when(final(self)@),
            final(self)@.policy == old(self)@.policy,
            final(self)@.timeout_ms == old(self)@.timeout_ms,
            old(self)@.finished ==> final(self)@ == old(self)@,
            !old(self)@.finished && elapsed_ms >= old(self)@.timeout_ms ==> final(self)@ == (
            CollectorState { timed_out: true, finished: true, ..old(self)@ }),
            !old(self)@.finished && elapsed_ms < old(self)@.timeout_ms ==> match event {
                StreamEvent::Line(text) => {
                    &&& final(self)@.lines == old(self)@.lines.push(trim_of(text@))
                    &&& final(self)@.timed_out == old(self)@.timed_out
                    &&& final(self)@.closed == old(self)@.closed
                },
                StreamEvent::Closed => final(self)@ == (CollectorState {
                    closed: true,
                    finished: true,
                    ..old(self)@
                }),
                StreamEvent::Quiet => final(self)@ == old(self)@,
            },
    {
        if self.finished {
            return;
        }
        if elapsed_ms >= self.timeout_ms {
            self.timed_out = true;
            self.finished = true;
            return;
        }
        match event {
            StreamEvent::Line(text) => {
                let line = trim_line(text.as_str());
                let ghost before = self.lines@;
                self.lines.push(line);
                proof {
                    assert(frame_view(self.lines@) =~= frame_view(before).push(line@));
                }
                let n = self.lines.len();
                let reached = match self.policy {
                    CollectionPolicy::Exactly(k) => n >= k,
                    CollectionPolicy::NoneExpected => true,
                    CollectionPolicy::Unbounded => false,
                };
                if reached {
                    self.finished = true;
                }
            },
            StreamEvent::Closed => {
                self.closed = true;
                self.finished = true;
            },
            StreamEvent::Quiet => {},
        }
    }

    /// The lines collected so far, in arrival order.
    pub fn lines(&self) -> (r: &Vec<String>)
        ensures
            frame_view(r@) == self@.lines,
    {
        &self.lines
    }

    /// Ends the collection and hands over its frame.
    pub fn into_frame(self) -> (r: Vec<String>)
        ensures
            frame_view(r@) == self@.lines,
    {
        self.lines
    }
}

} // verus!
