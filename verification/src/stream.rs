//! The status stream as a state machine: from its state and the outcome of
//! the last piece of outside work (a clock reading, a polled snapshot, the
//! handler having run) to its next state and the next piece of work to do.
//! The caller performs the work: it reads the clock, polls the status,
//! runs the handler and sleeps.

use crate::error::FloopError;
use crate::projects::is_terminal;
use crate::projects::pause_for;
use crate::projects::stream_deadline_check;
use crate::projects::stream_outcome;
use crate::projects::stream_pause;
use crate::projects::terminal_result;
use crate::projects::timeout_error;
use crate::projects::StreamOptions;
use crate::text::str_equal;
use crate::time::duration_nanos;
use std::time::Duration;
use vstd::prelude::*;

verus! {

/// Where a stream stands.
#[derive(Debug, Clone, Copy, PartialEq, Eq, Structural)]
pub enum StreamPhase {
    /// About to check the deadline; waits for the time left.
    Start,
    /// A poll was asked for; waits for the snapshot.
    AwaitStatus,
    /// A snapshot was handed to the handler; waits for it to have run.
    AfterReport,
    /// The clock was asked for to size the pause; waits for the time left.
    AwaitPause,
    /// The stream has ended.
    Done,
}

/// What the caller hands the stream after doing the work it asked for.
#[derive(Debug)]
pub enum StreamInput {
    /// The time left before the deadline (zero once it has passed).
    Clock(Duration),
    /// A polled snapshot: its de-duplication key, its status and message.
    Status { key: String, status: String, message: String },
    /// The handler has run on the reported snapshot.
    Reported,
    /// The poll failed with this error.
    PollFailed(FloopError),
    /// The handler refused the reported snapshot with this error.
    HandlerFailed(FloopError),
}

/// What the stream asks the caller to do next.
#[derive(Debug)]
pub enum StreamAction {
    /// Poll the project's status and hand back the snapshot.
    Poll,
    /// Run the handler on the snapshot just handed in, then hand back
    /// `Reported`.
    Report,
    /// Read the clock and hand back the time left.
    ReadClock,
    /// Sleep for this long, then hand back the time left.
    Sleep(Duration),
    /// The stream is over, with this result.
    Finish(Result<(), FloopError>),
    /// The input did not answer what was asked for, or the stream is over:
    /// nothing changed and nothing is asked for.
    Idle,
}

/// The kind of an action, without its payload.
pub enum ActionKind {
    Poll,
    Report,
    ReadClock,
    Sleep,
    Finish,
    Idle,
}

impl StreamAction {
    pub open spec fn kind(self) -> ActionKind {
        match self {
            StreamAction::Poll => ActionKind::Poll,
            StreamAction::Report => ActionKind::Report,
            StreamAction::ReadClock => ActionKind::ReadClock,
            StreamAction::Sleep(_) => ActionKind::Sleep,
            StreamAction::Finish(_) => ActionKind::Finish,
            StreamAction::Idle => ActionKind::Idle,
        }
    }
}

/// The abstract state of a stream: the key of the last snapshot polled,
/// the phase, and whether the reported snapshot was terminal.
pub struct StreamView {
    pub last_key: Seq<char>,
    pub phase: StreamPhase,
    pub finishing: bool,
}

/// The key a polled snapshot carries, if the input is one.
pub open spec fn snapshot_key(input: StreamInput) -> Option<Seq<char>> {
    match input {
        StreamInput::Status { key, .. } => Some(key@),
        _ => None,
    }
}

/// One step of a stream with poll interval `interval` (in nanoseconds):
/// the next state and the kind of the next action.
pub open spec fn step_view(s: StreamView, interval: nat, input: StreamInput) -> (StreamView, ActionKind) {
    let idle = (s, ActionKind::Idle);
    match s.phase {
        StreamPhase::Start => match input {
            StreamInput::Clock(r) => if duration_nanos(r) == 0 {
                (StreamView { phase: StreamPhase::Done, finishing: false, ..s }, ActionKind::Finish)
            } else {
                (StreamView { phase: StreamPhase::AwaitStatus, finishing: false, ..s }, ActionKind::Poll)
            },
            _ => idle,
        },
        StreamPhase::AwaitStatus => match input {
            StreamInput::PollFailed(_) => (
                StreamView { phase: StreamPhase::Done, finishing: false, ..s },
                ActionKind::Finish,
            ),
            StreamInput::Status { key, status, .. } => if key@ != s.last_key {
                (
                    StreamView {
                        last_key: key@,
                        phase: StreamPhase::AfterReport,
                        finishing: is_terminal(status@),
                    },
                    ActionKind::Report,
                )
            } else if is_terminal(status@) {
                (StreamView { phase: StreamPhase::Done, finishing: false, ..s }, ActionKind::Finish)
            } else {
                (
                    StreamView { phase: StreamPhase::AwaitPause, finishing: false, ..s },
                    ActionKind::ReadClock,
                )
            },
            _ => idle,
        },
        StreamPhase::AfterReport => match input {
            StreamInput::HandlerFailed(_) => (
                StreamView { phase: StreamPhase::Done, finishing: false, ..s },
                ActionKind::Finish,
            ),
            StreamInput::Reported => if s.finishing {
                (StreamView { phase: StreamPhase::Done, finishing: false, ..s }, ActionKind::Finish)
            } else {
                (
                    StreamView { phase: StreamPhase::AwaitPause, finishing: false, ..s },
                    ActionKind::ReadClock,
                )
            },
            _ => idle,
        },
        StreamPhase::AwaitPause => match input {
            StreamInput::Clock(r) => if interval == 0 || duration_nanos(r) == 0 {
                (StreamView { phase: StreamPhase::Start, finishing: false, ..s }, ActionKind::ReadClock)
            } else {
                (StreamView { phase: StreamPhase::Start, finishing: false, ..s }, ActionKind::Sleep)
            },
            _ => idle,
        },
        StreamPhase::Done => idle,
    }
}

/// The decisions of `Projects::stream` for one project.
pub struct StreamMachine {
    reference: String,
    interval: Duration,
    max_wait: Duration,
    last_key: String,
    phase: StreamPhase,
    pending: Option<Result<(), FloopError>>,
}

impl View for StreamMachine {
    type V = StreamView;

    closed spec fn view(&self) -> StreamView {
        StreamView { last_key: self.last_key@, phase: self.phase, finishing: self.pending is Some }
    }
}

impl StreamMachine {
    /// The project reference being streamed.
    pub closed spec fn reference(&self) -> Seq<char> {
        self.reference@
    }

    /// The pause between polls.
    pub closed spec fn interval(&self) -> Duration {
        self.interval
    }

    /// How long the stream may run.
    pub closed spec fn max_wait(&self) -> Duration {
        self.max_wait
    }

    /// The result of the terminal snapshot that is being reported.
    pub closed spec fn pending(&self) -> Option<Result<(), FloopError>> {
        self.pending
    }

    /// A stream of `reference` that has polled nothing yet.
    pub fn new(reference: &str, opts: StreamOptions) -> (m: StreamMachine)
        ensures
            m@ == (StreamView { last_key: Seq::empty(), phase: StreamPhase::Start, finishing: false }),
            m.reference() == reference@,
            m.interval() == opts.interval,
            m.max_wait() == opts.max_wait,
            m.pending() is None,
    {
        StreamMachine {
            reference: reference.to_owned(),
            interval: opts.interval,
            max_wait: opts.max_wait,
            last_key: String::new(),
            phase: StreamPhase::Start,
            pending: None,
        }
    }

    /// Takes the outcome of the last piece of work and says what to do next.
    pub fn step(&mut self, input: StreamInput) -> (action: StreamAction)
        ensures
            (final(self)@, action.kind()) == step_view(
                old(self)@,
                duration_nanos(old(self).interval()),
                input,
            ),
            final(self).reference() == old(self).reference(),
            final(self).interval() == old(self).interval(),
            final(self).max_wait() == old(self).max_wait(),
            action matches StreamAction::Sleep(d) ==> (input matches StreamInput::Clock(r)
                && pause_for(old(self).interval(), r, d)),
            action matches StreamAction::Finish(res) ==> match input {
                StreamInput::Clock(_) => res matches Err(e) && timeout_error(
                    old(self).reference(),
                    old(self).max_wait(),
                    e,
                ),
                StreamInput::Status { status, message, .. } => terminal_result(
                    status@,
                    message@,
                    res,
                ),
                StreamInput::Reported => old(self).pending() == Some(res),
                StreamInput::PollFailed(e) => res == Err::<(), FloopError>(e),
                StreamInput::HandlerFailed(e) => res == Err::<(), FloopError>(e),
            },
            action is Report ==> (input matches StreamInput::Status { status, message, .. } && match final(self).pending() {
                Some(res) => terminal_result(status@, message@, res),
                None => !is_terminal(status@),
            }),
            action is Idle ==> *final(self) == *old(self),
    {
        match self.phase {
            StreamPhase::Start => match input {
                StreamInput::Clock(remaining) => {
                    match stream_deadline_check(self.reference.as_str(), &self.max_wait, &remaining) {
                        Ok(()) => {
                            self.phase = StreamPhase::AwaitStatus;
                            self.pending = None;
                            StreamAction::Poll
                        },
                        Err(e) => {
                            self.phase = StreamPhase::Done;
                            self.pending = None;
                            StreamAction::Finish(Err(e))
                        },
                    }
                },
                _ => StreamAction::Idle,
            },
            StreamPhase::AwaitStatus => match input {
                StreamInput::PollFailed(e) => {
                    self.phase = StreamPhase::Done;
                    self.pending = None;
                    StreamAction::Finish(Err(e))
                },
                StreamInput::Status { key, status, message } => {
                    let outcome = stream_outcome(status.as_str(), message.as_str());
                    if !str_equal(key.as_str(), self.last_key.as_str()) {
                        self.last_key = key;
                        self.phase = StreamPhase::AfterReport;
                        self.pending = outcome;
                        StreamAction::Report
                    } else {
                        self.pending = None;
                        match outcome {
                            Some(res) => {
                                self.phase = StreamPhase::Done;
                                StreamAction::Finish(res)
                            },
                            None => {
                                self.phase = StreamPhase::AwaitPause;
                                StreamAction::ReadClock
                            },
                        }
                    }
                },
                _ => StreamAction::Idle,
            },
            StreamPhase::AfterReport => match input {
                StreamInput::HandlerFailed(e) => {
                    self.phase = StreamPhase::Done;
                    self.pending = None;
                    StreamAction::Finish(Err(e))
                },
                StreamInput::Reported => match self.pending.take() {
                    Some(res) => {
                        self.phase = StreamPhase::Done;
                        StreamAction::Finish(res)
                    },
                    None => {
                        self.phase = StreamPhase::AwaitPause;
                        StreamAction::ReadClock
                    },
                },
                _ => StreamAction::Idle,
            },
            StreamPhase::AwaitPause => match input {
                StreamInput::Clock(remaining) => {
                    self.phase = StreamPhase::Start;
                    self.pending = None;
                    match stream_pause(&self.interval, &remaining) {
                        Some(d) => StreamAction::Sleep(d),
                        None => StreamAction::ReadClock,
                    }
                },
                _ => StreamAction::Idle,
            },
            StreamPhase::Done => StreamAction::Idle,
        }
    }
}

/// The state of a stream that started in `s` after it took the first `n`
/// of `inputs`.
pub open spec fn state_after(s: StreamView, interval: nat, inputs: Seq<StreamInput>, n: nat) -> StreamView
    decreases n,
{
    if n == 0 {
        s
    } else {
        step_view(state_after(s, interval, inputs, (n - 1) as nat), interval, inputs[n - 1]).0
    }
}

/// The kind of action the stream asks for when it takes input `i`.
pub open spec fn action_at(s: StreamView, interval: nat, inputs: Seq<StreamInput>, i: nat) -> ActionKind {
    step_view(state_after(s, interval, inputs, i), interval, inputs[i as int]).1
}

/// The snapshots the stream consumed among its first `n` inputs, in poll
/// order: each one's key, and whether it was reported to the handler.
pub open spec fn snapshots(s: StreamView, interval: nat, inputs: Seq<StreamInput>, n: nat) -> Seq<
    (Seq<char>, bool),
>
    decreases n,
{
    if n == 0 {
        Seq::empty()
    } else {
        let i = (n - 1) as nat;
        let before = snapshots(s, interval, inputs, i);
        match snapshot_key(inputs[i as int]) {
            Some(k) => if state_after(s, interval, inputs, i).phase == StreamPhase::AwaitStatus {
                before.push((k, action_at(s, interval, inputs, i) is Report))
            } else {
                before
            },
            None => before,
        }
    }
}

/// De-duplication over a whole stream: each polled snapshot is reported to
/// the handler exactly when its key differs from the key of the snapshot
/// polled just before it (the first one: from the key the stream started
/// with), reports happen on polled snapshots only, and the stream's last
/// key is that of the last snapshot polled.
pub proof fn law_reports_follow_key_changes(
    s: StreamView,
    interval: nat,
    inputs: Seq<StreamInput>,
    n: nat,
)
    ensures
        forall|j: int|
            0 <= j < snapshots(s, interval, inputs, n).len() ==> ((#[trigger] snapshots(
                s,
                interval,
                inputs,
                n,
            )[j]).1 <==> snapshots(s, interval, inputs, n)[j].0 != (if j == 0 {
                s.last_key
            } else {
                snapshots(s, interval, inputs, n)[j - 1].0
            })),
        state_after(s, interval, inputs, n).last_key == (if snapshots(s, interval, inputs, n).len()
            == 0 {
            s.last_key
        } else {
            snapshots(s, interval, inputs, n).last().0
        }),
        forall|i: nat|
            i < n && #[trigger] action_at(s, interval, inputs, i) is Report ==> (state_after(
                s,
                interval,
                inputs,
                i,
            ).phase == StreamPhase::AwaitStatus && inputs[i as int] is Status),
    decreases n,
{
    if n > 0 {
        let i = (n - 1) as nat;
        law_reports_follow_key_changes(s, interval, inputs, i);
        let before = snapshots(s, interval, inputs, i);
        let now = snapshots(s, interval, inputs, n);
        assert forall|j: int| 0 <= j < before.len() implies #[trigger] now[j] == before[j] by {}
    }
}

/// Once a stream has finished, it stays as it is and asks for nothing,
/// whatever it is handed.
pub proof fn law_finished_stream_stays_finished(
    s: StreamView,
    interval: nat,
    inputs: Seq<StreamInput>,
    i: nat,
    j: nat,
)
    requires
        state_after(s, interval, inputs, i).phase == StreamPhase::Done,
        i <= j,
    ensures
        state_after(s, interval, inputs, j) == state_after(s, interval, inputs, i),
        action_at(s, interval, inputs, j) is Idle,
    decreases j - i,
{
    if j > i {
        law_finished_stream_stays_finished(s, interval, inputs, i, (j - 1) as nat);
    }
}

/// The stream asks for a poll only on a deadline check that found time
/// left.
pub proof fn law_polls_only_with_time_left(
    s: StreamView,
    interval: nat,
    inputs: Seq<StreamInput>,
    i: nat,
)
    requires
        action_at(s, interval, inputs, i) is Poll,
    ensures
        state_after(s, interval, inputs, i).phase == StreamPhase::Start,
        inputs[i as int] matches StreamInput::Clock(r) && duration_nanos(r) > 0,
{
}

/// A failed poll, or a handler refusing the snapshot it was handed, ends
/// the stream (with that error, as `StreamMachine::step` states), and no
/// poll, report or pause follows.
pub proof fn law_failure_ends_stream(
    s: StreamView,
    interval: nat,
    inputs: Seq<StreamInput>,
    i: nat,
    j: nat,
)
    requires
        (state_after(s, interval, inputs, i).phase == StreamPhase::AwaitStatus
            && inputs[i as int] is PollFailed) || (state_after(s, interval, inputs, i).phase
            == StreamPhase::AfterReport && inputs[i as int] is HandlerFailed),
        i < j,
    ensures
        action_at(s, interval, inputs, i) is Finish,
        action_at(s, interval, inputs, j) is Idle,
{
    assert(state_after(s, interval, inputs, i + 1).phase == StreamPhase::Done);
    law_finished_stream_stays_finished(s, interval, inputs, i + 1, j);
}

/// A deadline check that finds no time left ends the stream (with the
/// timeout), and no poll, report or pause follows.
pub proof fn law_no_poll_after_deadline(
    s: StreamView,
    interval: nat,
    inputs: Seq<StreamInput>,
    i: nat,
    j: nat,
)
    requires
        state_after(s, interval, inputs, i).phase == StreamPhase::Start,
        inputs[i as int] matches StreamInput::Clock(r) && duration_nanos(r) == 0,
        i < j,
    ensures
        action_at(s, interval, inputs, i) is Finish,
        action_at(s, interval, inputs, j) is Idle,
{
    assert(state_after(s, interval, inputs, i + 1).phase == StreamPhase::Done);
    law_finished_stream_stays_finished(s, interval, inputs, i + 1, j);
}

} // verus!
