//! The external-command execution harness: captured output, progress
//! messages, and interpretation of the process outcome.
//!
//! The harness itself performs no side effect: an unverified driver spawns
//! the process the harness describes, feeds every output line back through
//! [`CommandExecution::record_line`], and reports how the process ended
//! through [`CommandExecution::finish`].

use vstd::prelude::*;
use crate::error::ExecError;
use crate::text::spec_unlines;
use crate::text::join_lines;

verus! {

/// Which standard stream of the child produced a line.
#[derive(Clone, Copy, PartialEq, Eq, Structural, Debug)]
pub enum StreamKind {
    Stdout,
    Stderr,
}

/// One captured line of child output, in arrival order.
#[derive(Debug)]
pub struct LogLine {
    pub kind: StreamKind,
    pub line: String,
}

/// How a spawned process ended.
#[derive(Debug)]
pub enum SpawnOutcome {
    /// The process ran to completion and exited with this code.
    Exited(i32),
    /// The process could not be spawned at all; carries the cause.
    SpawnFailed(String),
}

/// The lines that one stream contributed, in arrival order.
pub open spec fn spec_stream_lines(events: Seq<LogLine>, k: StreamKind) -> Seq<Seq<char>>
    decreases events.len(),
{
    if events.len() == 0 {
        Seq::empty()
    } else {
        let rest = spec_stream_lines(events.drop_last(), k);
        if events.last().kind == k {
            rest.push(events.last().line@)
        } else {
            rest
        }
    }
}

/// All captured lines in true arrival order, regardless of stream.
pub open spec fn spec_merged_lines(events: Seq<LogLine>) -> Seq<Seq<char>> {
    events.map_values(|e: LogLine| e.line@)
}

/// Every line one stream contributed is one of the recorded lines.
proof fn lemma_stream_lines_newline_free(events: Seq<LogLine>, k: StreamKind)
    requires
        forall|i: int| 0 <= i < events.len() ==> !(#[trigger] events[i].line@).contains('\n'),
    ensures
        forall|i: int|
            0 <= i < spec_stream_lines(events, k).len() ==> !(#[trigger] spec_stream_lines(
                events,
                k,
            )[i]).contains('\n'),
    decreases events.len(),
{
    if events.len() > 0 {
        let dl = events.drop_last();
        assert forall|i: int| 0 <= i < dl.len() implies !(#[trigger] dl[i].line@).contains(
            '\n',
        ) by {
            assert(dl[i] == events[i]);
        }
        lemma_stream_lines_newline_free(dl, k);
        let rest = spec_stream_lines(dl, k);
        let sl = spec_stream_lines(events, k);
        assert forall|i: int| 0 <= i < sl.len() implies !(#[trigger] sl[i]).contains('\n') by {
            if events.last().kind == k {
                assert(sl == rest.push(events.last().line@));
                if i < rest.len() {
                    assert(sl[i] == rest[i]);
                } else {
                    assert(sl[i] == events[events.len() - 1].line@);
                }
            } else {
                assert(sl == rest);
                assert(sl[i] == rest[i]);
            }
        }
    }
}

/// Capture round trip: when no recorded line holds a newline character —
/// as lines drained from a stream never do — splitting the captured text
/// of a stream recovers exactly the lines that stream contributed, so what
/// is parsed from the captured text is parsed from the recorded lines.
pub proof fn lemma_capture_round_trip(events: Seq<LogLine>, k: StreamKind)
    requires
        forall|i: int| 0 <= i < events.len() ==> !(#[trigger] events[i].line@).contains('\n'),
    ensures
        crate::text::spec_lines(spec_unlines(spec_stream_lines(events, k))) == spec_stream_lines(
            events,
            k,
        ),
{
    lemma_stream_lines_newline_free(events, k);
    crate::text::lemma_unlines_lines_round_trip(spec_stream_lines(events, k));
}

/// A single external-process invocation: one instance is one process
/// lifetime.  Captured output becomes immutable once the outcome is
/// reported, and the same cached text is returned on every later read.
pub struct CommandExecution {
    label: String,
    argv: Vec<String>,
    progress: bool,
    events: Vec<LogLine>,
    outcome: Option<SpawnOutcome>,
}

impl CommandExecution {
    /// The host label used for log attribution.
    pub closed spec fn spec_label(self) -> Seq<char> {
        self.label@
    }

    /// The command line to spawn.
    pub closed spec fn spec_argv(self) -> Seq<Seq<char>> {
        self.argv.deep_view()
    }

    /// Whether a progress reporter is attached.
    pub closed spec fn progress_attached(self) -> bool {
        self.progress
    }

    /// The captured output lines so far.
    pub closed spec fn spec_events(self) -> Seq<LogLine> {
        self.events@
    }

    /// Whether the process outcome has not been reported yet.
    pub closed spec fn running(self) -> bool {
        self.outcome is None
    }

    /// The reported outcome, once there is one.
    pub closed spec fn spec_outcome(self) -> Option<SpawnOutcome> {
        self.outcome
    }

    /// The captured standard-output text: its lines, each closed by one
    /// newline character.
    pub open spec fn spec_stdout_text(self) -> Seq<char> {
        spec_unlines(spec_stream_lines(self.spec_events(), StreamKind::Stdout))
    }

    /// The captured standard-error text.
    pub open spec fn spec_stderr_text(self) -> Seq<char> {
        spec_unlines(spec_stream_lines(self.spec_events(), StreamKind::Stderr))
    }

    /// Both streams merged in true arrival order.
    pub open spec fn spec_merged_text(self) -> Seq<char> {
        spec_unlines(spec_merged_lines(self.spec_events()))
    }

    pub fn new(label: String, argv: Vec<String>) -> (r: CommandExecution)
        ensures
            r.spec_label() == label@,
            r.spec_argv() == argv.deep_view(),
            !r.progress_attached(),
            r.spec_events() == Seq::<LogLine>::empty(),
            r.running(),
    {
        let r = CommandExecution { label, argv, progress: false, events: Vec::new(), outcome: None };
        proof {
            assert(r.spec_events() =~= Seq::<LogLine>::empty());
        }
        r
    }

    /// Attaches a progress reporter: from here on, every captured line is
    /// also handed back as the message to display.
    pub fn attach_progress(&mut self)
        ensures
            final(self).progress_attached(),
            final(self).spec_label() == old(self).spec_label(),
            final(self).spec_argv() == old(self).spec_argv(),
            final(self).spec_events() == old(self).spec_events(),
            final(self).spec_outcome() == old(self).spec_outcome(),
    {
        self.progress = true;
    }

    /// The label, for log attribution by the driver.
    pub fn label(&self) -> (r: &str)
        ensures
            r@ == self.spec_label(),
    {
        self.label.as_str()
    }

    /// The command line, for the driver to spawn.
    pub fn argv(&self) -> (r: &Vec<String>)
        ensures
            r.deep_view() == self.spec_argv(),
    {
        &self.argv
    }

    /// Records one line of child output.  The returned message, when there
    /// is one, is what an attached progress display should now show; it is
    /// the line itself, so output is never discarded by progress rendering.
    pub fn record_line(&mut self, kind: StreamKind, line: String) -> (msg: Option<String>)
        requires
            old(self).running(),
        ensures
            final(self).spec_events() == old(self).spec_events().push(
                LogLine { kind, line: line },
            ),
            final(self).running(),
            final(self).spec_label() == old(self).spec_label(),
            final(self).spec_argv() == old(self).spec_argv(),
            final(self).progress_attached() == old(self).progress_attached(),
            match msg {
                Some(m) => old(self).progress_attached() && m@ == line@,
                None => !old(self).progress_attached(),
            },
    {
        let msg = if self.progress {
            Some(line.clone())
        } else {
            None
        };
        self.events.push(LogLine { kind, line });
        msg
    }

    /// The lines one stream contributed, in arrival order.
    fn stream_lines(&self, k: StreamKind) -> (r: Vec<String>)
        ensures
            r.deep_view() == spec_stream_lines(self.spec_events(), k),
    {
        let mut out: Vec<String> = Vec::new();
        let mut i: usize = 0;
        proof {
            assert(self.spec_events().take(0) =~= Seq::<LogLine>::empty());
            assert(out.deep_view() =~~= spec_stream_lines(self.spec_events().take(0), k));
        }
        while i < self.events.len()
            invariant
                i <= self.events.len(),
                self.events@ == self.spec_events(),
                out.deep_view() == spec_stream_lines(self.spec_events().take(i as int), k),
            decreases self.events.len() - i,
        {
            proof {
                assert(self.spec_events().take(i + 1).drop_last() =~= self.spec_events().take(
                    i as int,
                ));
                assert(self.spec_events().take(i + 1).last() == self.spec_events()[i as int]);
            }
            if self.events[i].kind == k {
                let ghost prev = out.deep_view();
                out.push(self.events[i].line.clone());
                proof {
                    assert(out.deep_view() =~~= prev.push(self.events@[i as int].line@));
                }
            }
            i = i + 1;
        }
        proof {
            assert(self.spec_events().take(self.events.len() as int) =~= self.spec_events());
        }
        out
    }

    /// The captured standard-error text, available at any time.
    pub fn stderr_text(&self) -> (r: String)
        ensures
            r@ == self.spec_stderr_text(),
    {
        let lines = self.stream_lines(StreamKind::Stderr);
        join_lines(&lines)
    }

    /// Reports how the process ended and yields the run's result: exit code
    /// zero is success; a non-zero exit code fails with the code and the
    /// captured standard-error text; a spawn failure fails with its cause
    /// and captures no output.
    pub fn finish(&mut self, outcome: SpawnOutcome) -> (r: Result<(), ExecError>)
        requires
            old(self).running(),
            outcome matches SpawnOutcome::SpawnFailed(_) ==> old(self).spec_events().len() == 0,
        ensures
            final(self).spec_outcome() == Some(outcome),
            !final(self).running(),
            final(self).spec_events() == old(self).spec_events(),
            final(self).spec_label() == old(self).spec_label(),
            final(self).spec_argv() == old(self).spec_argv(),
            final(self).progress_attached() == old(self).progress_attached(),
            match outcome {
                SpawnOutcome::Exited(c) => if c == 0 {
                    r is Ok
                } else {
                    r matches Err(ExecError::NonZeroExit(rc, se)) && rc == c && se@ == old(
                        self,
                    ).spec_stderr_text()
                },
                SpawnOutcome::SpawnFailed(cause) => r matches Err(ExecError::SpawnFailed(rc))
                    && rc@ == cause@,
            },
    {
        let r = match &outcome {
            SpawnOutcome::Exited(c) => {
                if *c == 0 {
                    Ok(())
                } else {
                    Err(ExecError::NonZeroExit(*c, self.stderr_text()))
                }
            },
            SpawnOutcome::SpawnFailed(cause) => Err(ExecError::SpawnFailed(cause.clone())),
        };
        self.outcome = Some(outcome);
        r
    }

    /// The run's result, recomputed from the reported outcome: the same
    /// mapping as [`CommandExecution::finish`].
    pub fn result(&self) -> (r: Result<(), ExecError>)
        requires
            !self.running(),
        ensures
            match self.spec_outcome() {
                Some(SpawnOutcome::Exited(c)) => if c == 0 {
                    r is Ok
                } else {
                    r matches Err(ExecError::NonZeroExit(rc, se)) && rc == c && se@
                        == self.spec_stderr_text()
                },
                Some(SpawnOutcome::SpawnFailed(cause)) => r matches Err(ExecError::SpawnFailed(rc))
                    && rc@ == cause@,
                None => true,
            },
    {
        match self.outcome.as_ref().unwrap() {
            SpawnOutcome::Exited(c) => {
                if *c == 0 {
                    Ok(())
                } else {
                    Err(ExecError::NonZeroExit(*c, self.stderr_text()))
                }
            },
            SpawnOutcome::SpawnFailed(cause) => Err(ExecError::SpawnFailed(cause.clone())),
        }
    }

    /// The captured standard-output and standard-error texts.  The captured
    /// output is immutable once the outcome is reported, so every call
    /// returns the same cached text.
    pub fn get_logs(&self) -> (r: (String, String))
        requires
            !self.running(),
        ensures
            r.0@ == self.spec_stdout_text(),
            r.1@ == self.spec_stderr_text(),
    {
        let out_lines = self.stream_lines(StreamKind::Stdout);
        let err_lines = self.stream_lines(StreamKind::Stderr);
        (join_lines(&out_lines), join_lines(&err_lines))
    }

    /// Both streams merged in true arrival order, so that interleaving is
    /// not lost when the two texts would be concatenated after the fact.
    pub fn merged_log(&self) -> (r: String)
        requires
            !self.running(),
        ensures
            r@ == self.spec_merged_text(),
    {
        let mut lines: Vec<String> = Vec::new();
        let mut i: usize = 0;
        proof {
            assert(lines.deep_view() =~~= spec_merged_lines(self.spec_events().take(0)));
        }
        while i < self.events.len()
            invariant
                i <= self.events.len(),
                self.events@ == self.spec_events(),
                lines.deep_view() == spec_merged_lines(self.spec_events().take(i as int)),
            decreases self.events.len() - i,
        {
            let ghost prev = lines.deep_view();
            lines.push(self.events[i].line.clone());
            proof {
                assert(lines.deep_view() =~~= prev.push(self.spec_events()[i as int].line@));
                assert(spec_merged_lines(self.spec_events().take(i + 1)) =~~= prev.push(
                    self.spec_events()[i as int].line@,
                ));
            }
            i = i + 1;
        }
        proof {
            assert(self.spec_events().take(self.events.len() as int) =~= self.spec_events());
        }
        join_lines(&lines)
    }
}

} // verus!
