//! The decisions of a workload run: which parsed line goes out next, which is
//! reported as unreadable, and when to wait for a round trip to finish.

use vstd::prelude::*;
use crate::gate::{ConcurrencyGate, lemma_gate_bounds_in_flight};
use crate::workload::{ParseError, Request, parse_line_spec, parsed_view, text_lines};

verus! {

/// What the runner of a workload is to do next.
#[derive(Clone, Copy, Debug, PartialEq, Eq, Structural)]
pub enum Action {
    /// Start the round trip of the request at this line, under a permit.
    Dispatch(usize),
    /// Report that the line at this index gave no request.
    ReportParseError(usize),
    /// Wait until a round trip in flight finishes.
    AwaitCompletion,
    /// Every line is handled and no round trip is in flight.
    Finished,
}

/// How many of `s` are requests.
pub open spec fn ok_count(s: Seq<Result<Request, ParseError>>) -> nat
    decreases s.len(),
{
    if s.len() == 0 {
        0
    } else {
        ok_count(s.drop_last()) + if s.last() is Ok {
            1nat
        } else {
            0nat
        }
    }
}

/// How many of `s` are parse errors.
pub open spec fn err_count(s: Seq<Result<Request, ParseError>>) -> nat
    decreases s.len(),
{
    if s.len() == 0 {
        0
    } else {
        err_count(s.drop_last()) + if s.last() is Err {
            1nat
        } else {
            0nat
        }
    }
}

/// Every parsed line is either a request or a parse error.
pub proof fn lemma_counts_cover(s: Seq<Result<Request, ParseError>>)
    ensures
        ok_count(s) + err_count(s) == s.len(),
    decreases s.len(),
{
    if s.len() > 0 {
        lemma_counts_cover(s.drop_last());
    }
}

/// The state of a workload run.
#[derive(Debug)]
pub struct Dispatcher {
    entries: Vec<Result<Request, ParseError>>,
    gate: ConcurrencyGate,
    next: usize,
    dispatched: usize,
    reported: usize,
    logged: usize,
    failed: usize,
}

impl Dispatcher {
    pub closed spec fn entries_spec(&self) -> Seq<Result<Request, ParseError>> {
        self.entries@
    }

    /// The index of the first line not yet handled.
    pub closed spec fn position(&self) -> nat {
        self.next as nat
    }

    pub closed spec fn in_flight_spec(&self) -> nat {
        self.gate.in_flight_spec()
    }

    pub closed spec fn max_spec(&self) -> nat {
        self.gate.max_spec()
    }

    /// Requests sent out so far.
    pub closed spec fn dispatched_spec(&self) -> nat {
        self.dispatched as nat
    }

    /// Parse errors reported so far.
    pub closed spec fn reported_spec(&self) -> nat {
        self.reported as nat
    }

    /// Round trips that ended in a log record.
    pub closed spec fn logged_spec(&self) -> nat {
        self.logged as nat
    }

    /// Round trips that ended in an error.
    pub closed spec fn failed_spec(&self) -> nat {
        self.failed as nat
    }

    /// What is left to do: each unhandled line counts twice, each round trip
    /// in flight once.
    pub open spec fn remaining_work(&self) -> nat {
        2 * (self.entries_spec().len() - self.position()) as nat + self.in_flight_spec()
    }

    pub open spec fn is_done(&self) -> bool {
        self.position() == self.entries_spec().len() && self.in_flight_spec() == 0
    }

    pub closed spec fn wf(&self) -> bool {
        &&& self.gate.wf()
        &&& self.next <= self.entries@.len()
        &&& self.dispatched == ok_count(self.entries@.subrange(0, self.next as int))
        &&& self.reported == err_count(self.entries@.subrange(0, self.next as int))
        &&& self.logged + self.failed + self.gate.in_flight_spec() == self.dispatched
    }

    /// A run over the parsed lines of a workload, with `max_in_flight` permits.
    pub fn new(entries: Vec<Result<Request, ParseError>>, max_in_flight: usize) -> (r: Dispatcher)
        requires
            max_in_flight > 0,
        ensures
            r.wf(),
            r.entries_spec() == entries@,
            r.max_spec() == max_in_flight,
            r.position() == 0,
            r.in_flight_spec() == 0,
            r.dispatched_spec() == 0,
            r.reported_spec() == 0,
            r.logged_spec() == 0,
            r.failed_spec() == 0,
    {
        let r = Dispatcher {
            entries,
            gate: ConcurrencyGate::new(max_in_flight),
            next: 0,
            dispatched: 0,
            reported: 0,
            logged: 0,
            failed: 0,
        };
        assert(r.entries@.subrange(0, 0) =~= Seq::<Result<Request, ParseError>>::empty());
        r
    }

    /// The parsed line at `i`.
    pub fn entry(&self, i: usize) -> (r: &Result<Request, ParseError>)
        requires
            i < self.entries_spec().len(),
        ensures
            *r == self.entries_spec()[i as int],
    {
        &self.entries[i]
    }

    /// Decides the next step of the run and records it.
    pub fn next_action(&mut self) -> (r: Action)
        requires
            old(self).wf(),
        ensures
            final(self).wf(),
            final(self).entries_spec() == old(self).entries_spec(),
            final(self).max_spec() == old(self).max_spec(),
            final(self).logged_spec() == old(self).logged_spec(),
            final(self).failed_spec() == old(self).failed_spec(),
            match r {
                Action::ReportParseError(i) => {
                    &&& i == old(self).position()
                    &&& i < old(self).entries_spec().len()
                    &&& old(self).entries_spec()[i as int] is Err
                    &&& final(self).position() == i + 1
                    &&& final(self).in_flight_spec() == old(self).in_flight_spec()
                    &&& final(self).dispatched_spec() == old(self).dispatched_spec()
                    &&& final(self).reported_spec() == old(self).reported_spec() + 1
                },
                Action::Dispatch(i) => {
                    &&& i == old(self).position()
                    &&& i < old(self).entries_spec().len()
                    &&& old(self).entries_spec()[i as int] is Ok
                    &&& old(self).in_flight_spec() < old(self).max_spec()
                    &&& final(self).position() == i + 1
                    &&& final(self).in_flight_spec() == old(self).in_flight_spec() + 1
                    &&& final(self).dispatched_spec() == old(self).dispatched_spec() + 1
                    &&& final(self).reported_spec() == old(self).reported_spec()
                },
                Action::AwaitCompletion => {
                    &&& old(self).in_flight_spec() > 0
                    &&& (old(self).position() == old(self).entries_spec().len() || (old(
                        self,
                    ).entries_spec()[old(self).position() as int] is Ok && old(
                        self,
                    ).in_flight_spec() == old(self).max_spec()))
                    &&& final(self).position() == old(self).position()
                    &&& final(self).in_flight_spec() == old(self).in_flight_spec()
                    &&& final(self).dispatched_spec() == old(self).dispatched_spec()
                    &&& final(self).reported_spec() == old(self).reported_spec()
                },
                Action::Finished => {
                    &&& old(self).is_done()
                    &&& final(self).position() == old(self).position()
                    &&& final(self).in_flight_spec() == 0
                    &&& final(self).dispatched_spec() == old(self).dispatched_spec()
                    &&& final(self).reported_spec() == old(self).reported_spec()
                },
            },
            r is Finished <==> old(self).is_done(),
            r is Dispatch || r is ReportParseError ==> final(self).remaining_work() < old(
                self,
            ).remaining_work(),
    {
        let ghost prefix = self.entries@.subrange(0, self.next as int);
        proof {
            lemma_counts_cover(prefix);
            lemma_gate_bounds_in_flight(&self.gate);
        }
        if self.next < self.entries.len() {
            let i = self.next;
            proof {
                assert(self.entries@.subrange(0, i + 1).drop_last() =~= prefix);
            }
            match &self.entries[i] {
                Err(_) => {
                    self.next = i + 1;
                    self.reported = self.reported + 1;
                    Action::ReportParseError(i)
                },
                Ok(_) => {
                    if self.gate.try_acquire() {
                        self.next = i + 1;
                        self.dispatched = self.dispatched + 1;
                        Action::Dispatch(i)
                    } else {
                        Action::AwaitCompletion
                    }
                },
            }
        } else if self.gate.in_flight() > 0 {
            Action::AwaitCompletion
        } else {
            Action::Finished
        }
    }

    /// Records that a round trip in flight has finished, with a log record
    /// written or not, and takes back its permit.
    pub fn task_finished(&mut self, logged: bool)
        requires
            old(self).wf(),
            old(self).in_flight_spec() > 0,
        ensures
            final(self).wf(),
            final(self).entries_spec() == old(self).entries_spec(),
            final(self).max_spec() == old(self).max_spec(),
            final(self).position() == old(self).position(),
            final(self).dispatched_spec() == old(self).dispatched_spec(),
            final(self).reported_spec() == old(self).reported_spec(),
            final(self).in_flight_spec() == old(self).in_flight_spec() - 1,
            final(self).logged_spec() == old(self).logged_spec() + if logged {
                1nat
            } else {
                0nat
            },
            final(self).failed_spec() == old(self).failed_spec() + if logged {
                0nat
            } else {
                1nat
            },
            final(self).remaining_work() < old(self).remaining_work(),
    {
        self.gate.release();
        if logged {
            self.logged = self.logged + 1;
        } else {
            self.failed = self.failed + 1;
        }
    }

    /// How many round trips are in flight.
    pub fn in_flight(&self) -> (r: usize)
        requires
            self.wf(),
        ensures
            r == self.in_flight_spec(),
    {
        self.gate.in_flight()
    }

    /// How many parse errors were reported.
    pub fn reported(&self) -> (r: usize)
        ensures
            r == self.reported_spec(),
    {
        self.reported
    }

    /// How many requests were sent out.
    pub fn dispatched(&self) -> (r: usize)
        ensures
            r == self.dispatched_spec(),
    {
        self.dispatched
    }

    /// How many round trips ended in a log record.
    pub fn logged(&self) -> (r: usize)
        ensures
            r == self.logged_spec(),
    {
        self.logged
    }

    /// How many round trips ended in an error.
    pub fn failed(&self) -> (r: usize)
        ensures
            r == self.failed_spec(),
    {
        self.failed
    }
}

/// How many of the lines are malformed: they give a parse error.
pub open spec fn malformed_count(lines: Seq<Seq<char>>) -> nat
    decreases lines.len(),
{
    if lines.len() == 0 {
        0
    } else {
        malformed_count(lines.drop_last()) + if parse_line_spec(lines.last()) is Err {
            1nat
        } else {
            0nat
        }
    }
}

/// How many of the lines are well formed: they give a request.
pub open spec fn well_formed_count(lines: Seq<Seq<char>>) -> nat
    decreases lines.len(),
{
    if lines.len() == 0 {
        0
    } else {
        well_formed_count(lines.drop_last()) + if parse_line_spec(lines.last()) is Ok {
            1nat
        } else {
            0nat
        }
    }
}

proof fn lemma_counts_match_lines(entries: Seq<Result<Request, ParseError>>, lines: Seq<Seq<char>>)
    requires
        entries.len() == lines.len(),
        forall|i: int|
            0 <= i < entries.len() ==> parsed_view(#[trigger] entries[i]) == parse_line_spec(
                lines[i],
            ),
    ensures
        err_count(entries) == malformed_count(lines),
        ok_count(entries) == well_formed_count(lines),
    decreases lines.len(),
{
    if lines.len() > 0 {
        let e = entries.drop_last();
        let l = lines.drop_last();
        assert forall|i: int| 0 <= i < e.len() implies parsed_view(#[trigger] e[i])
            == parse_line_spec(l[i]) by {
            assert(e[i] == entries[i]);
        }
        lemma_counts_match_lines(e, l);
        assert(parsed_view(entries[entries.len() - 1]) == parse_line_spec(lines.last()));
    }
}

impl Dispatcher {
    /// At every state of a run, no more round trips are in flight than the
    /// gate has permits.
    pub proof fn lemma_in_flight_bounded(&self)
        requires
            self.wf(),
        ensures
            self.in_flight_spec() <= self.max_spec(),
    {
        lemma_gate_bounds_in_flight(&self.gate);
    }

    /// A finished run has reported one parse error for each malformed line,
    /// sent out one request for each well-formed line, and so written at most
    /// that many log records.
    pub proof fn lemma_finished_run_accounts_for_lines(&self, text: Seq<char>)
        requires
            self.wf(),
            self.is_done(),
            self.entries_spec().len() == text_lines(text).len(),
            forall|i: int|
                0 <= i < self.entries_spec().len() ==> parsed_view(
                    #[trigger] self.entries_spec()[i],
                ) == parse_line_spec(text_lines(text)[i]),
        ensures
            self.reported_spec() == malformed_count(text_lines(text)),
            self.dispatched_spec() == well_formed_count(text_lines(text)),
            self.logged_spec() + self.failed_spec() == self.dispatched_spec(),
            self.logged_spec() <= well_formed_count(text_lines(text)),
    {
        assert(self.entries@.subrange(0, self.next as int) =~= self.entries@);
        lemma_counts_match_lines(self.entries@, text_lines(text));
    }
}

} // verus!
