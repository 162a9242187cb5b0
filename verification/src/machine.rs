//! Walking a script: one request to the host at a time.
//!
//! The machine holds no state of its own.  Whoever drives it keeps the
//! cursor, carries out each request, and hands the host's reply back:
//!
//! ```text
//! let (mut cursor, mut request) = advance(&script, Cursor::start(), &Reply::Begin);
//! while request is not Stop { reply = carry out request; (cursor, request) = advance(&script, cursor, &reply) }
//! ```
//!
//! Every decision is taken here: whether a block's conditions hold, what
//! a failure ends, how often a wait is tried again.

use vstd::prelude::*;
use vstd::string::*;
use crate::argv::{argv1, argv2};
use crate::command::{capture, CommandView, HostCommand};
use crate::error::{about, Failure, FailureKind, FailureView};
use crate::prepare::ssh::{keys_changed, ssh_keys_changed};
use crate::script::{Block, BlockView, Poll, PollView, Probe, ProbeView, Step, StepView};
use crate::text::{contains, occurs_in, same, trim, trimmed};

verus! {

/// What the host is asked to do.
#[derive(Clone, Debug, PartialEq, Eq)]
pub enum Request {
    /// Run the command and reply with its outcome.
    Exec { command: HostCommand },
    /// Reply whether the path exists.
    Exists { path: String },
    /// Carry the step out and reply with its outcome.
    Perform { step: Step },
    /// Pause, then reply.
    Sleep { millis: u64 },
    /// Nothing more: the script has ended.
    Stop { ending: Ending },
}

pub enum RequestView {
    Exec { command: CommandView },
    Exists { path: Seq<char> },
    Perform { step: StepView },
    Sleep { millis: u64 },
    Stop { ending: EndingView },
}

/// How a script ended.
#[derive(Clone, Debug, PartialEq, Eq)]
pub enum Ending {
    /// Every block was gone through; the workflow goes on.
    Completed,
    /// A step ended the workflow, successfully.
    Halted,
    /// The workflow failed.
    Failed { error: Failure },
}

pub enum EndingView {
    Completed,
    Halted,
    Failed { error: FailureView },
}

impl View for Ending {
    type V = EndingView;

    open spec fn view(&self) -> EndingView {
        match *self {
            Ending::Completed => EndingView::Completed,
            Ending::Halted => EndingView::Halted,
            Ending::Failed { error } => EndingView::Failed { error: error@ },
        }
    }
}

impl View for Request {
    type V = RequestView;

    open spec fn view(&self) -> RequestView {
        match *self {
            Request::Exec { command } => RequestView::Exec { command: command@ },
            Request::Exists { path } => RequestView::Exists { path: path@ },
            Request::Perform { step } => RequestView::Perform { step: step@ },
            Request::Sleep { millis } => RequestView::Sleep { millis },
            Request::Stop { ending } => RequestView::Stop { ending: ending@ },
        }
    }
}

/// What the host answers.
#[derive(Debug, PartialEq, Eq)]
pub enum Reply {
    /// Nothing was asked yet.
    Begin,
    /// Whether the path exists.
    Exists { found: bool },
    /// What came of the request: the command's standard output (nothing
    /// for other requests), or the failure.
    Done { result: Result<String, Failure> },
}

pub enum ReplyView {
    Begin,
    Exists { found: bool },
    Done { result: Result<Seq<char>, FailureView> },
}

impl View for Reply {
    type V = ReplyView;

    open spec fn view(&self) -> ReplyView {
        match *self {
            Reply::Begin => ReplyView::Begin,
            Reply::Exists { found } => ReplyView::Exists { found },
            Reply::Done { result } => ReplyView::Done {
                result: match result {
                    Ok(out) => Ok(out@),
                    Err(e) => Err(e@),
                },
            },
        }
    }
}

/// Where in a wait the machine stands.
#[derive(Clone, Copy, Debug, PartialEq, Eq, Structural)]
pub enum WaitStage {
    /// Pausing before the first try.
    PauseFirst,
    /// Trying; `second` while the probe's second question is out.
    Probe { second: bool },
    /// Pausing between two tries.
    Pause,
    /// Pausing after the last try.
    PauseLast,
}

/// Where in a block the machine stands.
#[derive(Clone, Copy, Debug, PartialEq, Eq, Structural)]
pub enum Place {
    /// Nothing was asked yet.
    Start,
    /// A condition is being examined; `second` while the probe's second
    /// question is out.
    Test { condition: usize, second: bool },
    /// A step is being carried out, in `steps` or in `otherwise`.
    Step { met: bool, step: usize },
    /// A wait is going on, `tries` tries of it over.
    Wait { met: bool, step: usize, tries: u32, stage: WaitStage },
    /// The script has ended.
    End,
}

/// Where in a script the machine stands: what the request that is out
/// belongs to.
#[derive(Clone, Copy, Debug, PartialEq, Eq, Structural)]
pub struct Cursor {
    pub block: usize,
    pub place: Place,
}

/// What a probe's reply amounts to.
#[derive(Clone, Debug, PartialEq, Eq)]
pub enum Verdict {
    /// The probe's answer.
    Answer { yes: bool },
    /// The probe has a second question.
    Again,
    /// The probe could not be carried out; the script ends.
    Fatal { error: Failure },
}

pub enum VerdictView {
    Answer { yes: bool },
    Again,
    Fatal { error: FailureView },
}

impl View for Verdict {
    type V = VerdictView;

    open spec fn view(&self) -> VerdictView {
        match *self {
            Verdict::Answer { yes } => VerdictView::Answer { yes },
            Verdict::Again => VerdictView::Again,
            Verdict::Fatal { error } => VerdictView::Fatal { error: error@ },
        }
    }
}

/// The reply that never fits what was asked.
pub open spec fn out_of_turn() -> FailureView {
    about(FailureKind::ExternalCommandFailed, "reply out of turn"@)
}

/// What a probe asks of the host: first, and, for a probe that asks
/// twice, second.
pub open spec fn probe_request(probe: ProbeView, second: bool) -> RequestView {
    match probe {
        ProbeView::PathExists { path } => RequestView::Exists { path },
        ProbeView::Succeeds { command } => RequestView::Exec { command },
        ProbeView::OutputContains { command, needle } => RequestView::Exec { command },
        ProbeView::OutputIs { command, text } => RequestView::Exec { command },
        ProbeView::KeysDiffer { path, keys } => if second {
            RequestView::Exec { command: capture("cat"@, seq![path], true) }
        } else {
            RequestView::Exec { command: capture("test"@, seq!["-e"@, path], true) }
        },
    }
}

/// What a reply means for a probe.
///
/// A path exists as the host says.  A command succeeds when it ends
/// without failure.  Output is examined only of a command that
/// succeeded; its failure is fatal.  Keys differ when the file is not
/// there; else its content is asked for and compared with the keys.
pub open spec fn probe_verdict(probe: ProbeView, second: bool, reply: ReplyView) -> VerdictView {
    match probe {
        ProbeView::PathExists { path } => match reply {
            ReplyView::Exists { found } => VerdictView::Answer { yes: found },
            ReplyView::Done { result } => VerdictView::Answer { yes: result is Ok },
            ReplyView::Begin => VerdictView::Fatal { error: out_of_turn() },
        },
        ProbeView::Succeeds { command } => match reply {
            ReplyView::Exists { found } => VerdictView::Answer { yes: found },
            ReplyView::Done { result } => VerdictView::Answer { yes: result is Ok },
            ReplyView::Begin => VerdictView::Fatal { error: out_of_turn() },
        },
        ProbeView::OutputContains { command, needle } => match reply {
            ReplyView::Done { result: Ok(out) } => VerdictView::Answer {
                yes: occurs_in(needle, out),
            },
            ReplyView::Done { result: Err(e) } => VerdictView::Fatal { error: e },
            _ => VerdictView::Fatal { error: out_of_turn() },
        },
        ProbeView::OutputIs { command, text } => match reply {
            ReplyView::Done { result: Ok(out) } => VerdictView::Answer { yes: trimmed(out) == text },
            ReplyView::Done { result: Err(e) } => VerdictView::Fatal { error: e },
            _ => VerdictView::Fatal { error: out_of_turn() },
        },
        ProbeView::KeysDiffer { path, keys } => match reply {
            ReplyView::Done { result: Ok(out) } => if second {
                VerdictView::Answer { yes: keys_changed(Some(keys), Some(out)) }
            } else {
                VerdictView::Again
            },
            ReplyView::Done { result: Err(e) } => if second {
                VerdictView::Fatal { error: e }
            } else {
                VerdictView::Answer { yes: true }
            },
            _ => VerdictView::Fatal { error: out_of_turn() },
        },
    }
}

/// The steps of a block that are carried out when its conditions are met,
/// or, if not, when they are not.
pub open spec fn branch(block: BlockView, met: bool) -> Seq<StepView> {
    if met {
        block.steps
    } else {
        block.otherwise
    }
}

/// An ended script.
pub open spec fn stopped(block: int, ending: EndingView) -> (Cursor, RequestView) {
    (Cursor { block: block as usize, place: Place::End }, RequestView::Stop { ending })
}

/// A wait that ran out: the script fails with the wait's failure, if it
/// has one; else it goes on with the next step.
pub open spec fn timed_out(script: Seq<BlockView>, b: int, met: bool, s: int, poll: PollView) -> (
    Cursor,
    RequestView,
)
    recommends
        0 <= b < script.len(),
        0 <= s < branch(script[b], met).len(),
    decreases script.len() - b, 0int, branch(script[b], met).len() - s, 0int,
{
    match poll.on_timeout {
        Some(error) => stopped(b, EndingView::Failed { error }),
        None => if 0 <= b < script.len() && 0 <= s < branch(script[b], met).len() {
            enter_step(script, b, met, s + 1)
        } else {
            stopped(b, EndingView::Completed)
        },
    }
}

/// The request with which step `s` of a block is taken up.  Steps that
/// ask nothing of the host are passed over; past the last step, the next
/// block is entered.
pub open spec fn enter_step(script: Seq<BlockView>, b: int, met: bool, s: int) -> (
    Cursor,
    RequestView,
)
    decreases script.len() - b, 0int, branch(script[b], met).len() - s, 1int,
{
    if b < 0 || b >= script.len() {
        stopped(b, EndingView::Completed)
    } else if s < 0 || s >= branch(script[b], met).len() {
        enter_block(script, b + 1)
    } else {
        let here = Cursor { block: b as usize, place: Place::Step { met, step: s as usize } };
        match branch(script[b], met)[s] {
            StepView::Run { command } => (here, RequestView::Exec { command }),
            StepView::Try { command } => (here, RequestView::Exec { command }),
            StepView::Sleep { millis } => (here, RequestView::Sleep { millis }),
            StepView::Halt => stopped(b, EndingView::Halted),
            StepView::Abort { error } => stopped(b, EndingView::Failed { error }),
            StepView::Await { poll } => if poll.tries == Some(0u32) {
                timed_out(script, b, met, s, poll)
            } else if poll.pause_first {
                (
                    Cursor {
                        block: b as usize,
                        place: Place::Wait {
                            met,
                            step: s as usize,
                            tries: 0,
                            stage: WaitStage::PauseFirst,
                        },
                    },
                    RequestView::Sleep { millis: poll.interval_ms },
                )
            } else {
                (
                    Cursor {
                        block: b as usize,
                        place: Place::Wait {
                            met,
                            step: s as usize,
                            tries: 0,
                            stage: WaitStage::Probe { second: false },
                        },
                    },
                    probe_request(poll.probe, false),
                )
            },
            step => (here, RequestView::Perform { step }),
        }
    }
}

/// The request with which block `b` is taken up: its first condition's
/// question, or its first step where it has no conditions.  Past the
/// last block the script is complete.
pub open spec fn enter_block(script: Seq<BlockView>, b: int) -> (Cursor, RequestView)
    decreases script.len() - b, 1int, 0int, 0int,
{
    if b < 0 || b >= script.len() {
        stopped(b, EndingView::Completed)
    } else if script[b].conditions.len() == 0 {
        enter_step(script, b, true, 0)
    } else {
        (
            Cursor { block: b as usize, place: Place::Test { condition: 0, second: false } },
            probe_request(script[b].conditions[0].probe, false),
        )
    }
}

/// The largest number of tries that is counted.
pub open spec fn counted(tries: u32) -> u32 {
    if tries == u32::MAX {
        tries
    } else {
        (tries + 1) as u32
    }
}

/// What follows the reply to the request that is out at `cursor`.
///
/// A condition that is met leads to the next one, and the last to the
/// block's steps; one that is not met leads to the block's other steps.
/// A command that must succeed and fails ends the script with its
/// failure, and so does any other step that fails; a command that is only
/// tried never does.  A wait is tried again after a pause until its probe
/// answers as wanted or its tries are used up.
pub open spec fn advanced(script: Seq<BlockView>, cursor: Cursor, reply: ReplyView) -> (
    Cursor,
    RequestView,
) {
    let b = cursor.block as int;
    match cursor.place {
        Place::Start => enter_block(script, 0),
        Place::End => stopped(b, EndingView::Completed),
        Place::Test { condition, second } => if b >= script.len() || condition
            >= script[b].conditions.len() {
            stopped(b, EndingView::Failed { error: out_of_turn() })
        } else {
            let c = script[b].conditions[condition as int];
            match probe_verdict(c.probe, second, reply) {
                VerdictView::Fatal { error } => stopped(b, EndingView::Failed { error }),
                VerdictView::Again => (
                    Cursor { block: cursor.block, place: Place::Test { condition, second: true } },
                    probe_request(c.probe, true),
                ),
                VerdictView::Answer { yes } => if yes != c.expect {
                    enter_step(script, b, false, 0)
                } else if condition + 1 < script[b].conditions.len() {
                    (
                        Cursor {
                            block: cursor.block,
                            place: Place::Test {
                                condition: (condition + 1) as usize,
                                second: false,
                            },
                        },
                        probe_request(script[b].conditions[condition + 1].probe, false),
                    )
                } else {
                    enter_step(script, b, true, 0)
                },
            }
        },
        Place::Step { met, step } => if b >= script.len() || step >= branch(script[b], met).len() {
            stopped(b, EndingView::Failed { error: out_of_turn() })
        } else {
            match (branch(script[b], met)[step as int], reply) {
                (StepView::Try { command }, _) => enter_step(script, b, met, step + 1),
                (_, ReplyView::Done { result: Err(error) }) => stopped(
                    b,
                    EndingView::Failed { error },
                ),
                (_, _) => enter_step(script, b, met, step + 1),
            }
        },
        Place::Wait { met, step, tries, stage } => if b >= script.len() || step >= branch(
            script[b],
            met,
        ).len() {
            stopped(b, EndingView::Failed { error: out_of_turn() })
        } else {
            match branch(script[b], met)[step as int] {
                StepView::Await { poll } => match stage {
                    WaitStage::PauseFirst => (
                        Cursor {
                            block: cursor.block,
                            place: Place::Wait {
                                met,
                                step,
                                tries,
                                stage: WaitStage::Probe { second: false },
                            },
                        },
                        probe_request(poll.probe, false),
                    ),
                    WaitStage::Pause => (
                        Cursor {
                            block: cursor.block,
                            place: Place::Wait {
                                met,
                                step,
                                tries,
                                stage: WaitStage::Probe { second: false },
                            },
                        },
                        probe_request(poll.probe, false),
                    ),
                    WaitStage::PauseLast => timed_out(script, b, met, step as int, poll),
                    WaitStage::Probe { second } => match probe_verdict(poll.probe, second, reply) {
                        VerdictView::Fatal { error } => stopped(b, EndingView::Failed { error }),
                        VerdictView::Again => (
                            Cursor {
                                block: cursor.block,
                                place: Place::Wait {
                                    met,
                                    step,
                                    tries,
                                    stage: WaitStage::Probe { second: true },
                                },
                            },
                            probe_request(poll.probe, true),
                        ),
                        VerdictView::Answer { yes } => if yes == poll.expect {
                            enter_step(script, b, met, step + 1)
                        } else if poll.tries is Some && counted(tries) >= poll.tries->0 {
                            if poll.pause_last {
                                (
                                    Cursor {
                                        block: cursor.block,
                                        place: Place::Wait {
                                            met,
                                            step,
                                            tries: counted(tries),
                                            stage: WaitStage::PauseLast,
                                        },
                                    },
                                    RequestView::Sleep { millis: poll.interval_ms },
                                )
                            } else {
                                timed_out(script, b, met, step as int, poll)
                            }
                        } else {
                            (
                                Cursor {
                                    block: cursor.block,
                                    place: Place::Wait {
                                        met,
                                        step,
                                        tries: counted(tries),
                                        stage: WaitStage::Pause,
                                    },
                                },
                                RequestView::Sleep { millis: poll.interval_ms },
                            )
                        },
                    },
                },
                _ => stopped(b, EndingView::Failed { error: out_of_turn() }),
            }
        },
    }
}

/// What `probe` asks of the host: first, and, once `judge` has called
/// for it, second.
pub fn ask(probe: &Probe, second: bool) -> (r: Request)
    ensures
        r@ == probe_request(probe@, second),
{
    match probe {
        Probe::PathExists { path } => Request::Exists { path: path.clone() },
        Probe::Succeeds { command } => Request::Exec { command: command.duplicate() },
        Probe::OutputContains { command, needle } => Request::Exec { command: command.duplicate() },
        Probe::OutputIs { command, text } => Request::Exec { command: command.duplicate() },
        Probe::KeysDiffer { path, keys } => {
            if second {
                Request::Exec { command: HostCommand::capture("cat", argv1(path.as_str()), true) }
            } else {
                Request::Exec {
                    command: HostCommand::capture("test", argv2("-e", path.as_str()), true),
                }
            }
        },
    }
}

fn unexpected() -> (r: Failure)
    ensures
        r@ == out_of_turn(),
{
    Failure::about(FailureKind::ExternalCommandFailed, "reply out of turn")
}

/// What `reply` means for `probe`.
pub fn judge(probe: &Probe, second: bool, reply: &Reply) -> (r: Verdict)
    ensures
        r@ == probe_verdict(probe@, second, reply@),
{
    match probe {
        Probe::PathExists { path } => match reply {
            Reply::Exists { found } => Verdict::Answer { yes: *found },
            Reply::Done { result } => Verdict::Answer { yes: result.is_ok() },
            Reply::Begin => Verdict::Fatal { error: unexpected() },
        },
        Probe::Succeeds { command } => match reply {
            Reply::Exists { found } => Verdict::Answer { yes: *found },
            Reply::Done { result } => Verdict::Answer { yes: result.is_ok() },
            Reply::Begin => Verdict::Fatal { error: unexpected() },
        },
        Probe::OutputContains { command, needle } => match reply {
            Reply::Done { result: Ok(out) } => Verdict::Answer {
                yes: contains(out.as_str(), needle.as_str()),
            },
            Reply::Done { result: Err(e) } => Verdict::Fatal { error: e.duplicate() },
            _ => Verdict::Fatal { error: unexpected() },
        },
        Probe::OutputIs { command, text } => match reply {
            Reply::Done { result: Ok(out) } => Verdict::Answer {
                yes: same(trim(out.as_str()).as_str(), text.as_str()),
            },
            Reply::Done { result: Err(e) } => Verdict::Fatal { error: e.duplicate() },
            _ => Verdict::Fatal { error: unexpected() },
        },
        Probe::KeysDiffer { path, keys } => match reply {
            Reply::Done { result: Ok(out) } => {
                if second {
                    let wanted = Some(keys.clone());
                    let installed = Some(out.clone());
                    Verdict::Answer { yes: ssh_keys_changed(&wanted, &installed) }
                } else {
                    Verdict::Again
                }
            },
            Reply::Done { result: Err(e) } => {
                if second {
                    Verdict::Fatal { error: e.duplicate() }
                } else {
                    Verdict::Answer { yes: true }
                }
            },
            _ => Verdict::Fatal { error: unexpected() },
        },
    }
}

fn stop(block: usize, ending: Ending) -> (r: (Cursor, Request))
    ensures
        r.0 == stopped(block as int, ending@).0,
        r.1@ == stopped(block as int, ending@).1,
{
    (Cursor { block, place: Place::End }, Request::Stop { ending })
}

fn steps_of(block: &Block, met: bool) -> (r: &Vec<Step>)
    ensures
        r.deep_view() == branch(block@, met),
{
    if met {
        &block.steps
    } else {
        &block.otherwise
    }
}

fn time_out(script: &Vec<Block>, b: usize, met: bool, s: usize, poll: &Poll) -> (r: (
    Cursor,
    Request,
))
    requires
        b < script.len(),
        s < branch(script.deep_view()[b as int], met).len(),
    ensures
        r.0 == timed_out(script.deep_view(), b as int, met, s as int, poll@).0,
        r.1@ == timed_out(script.deep_view(), b as int, met, s as int, poll@).1,
    decreases script.len() - b, 0int, branch(script.deep_view()[b as int], met).len() - s, 0int,
{
    assert(script.deep_view()[b as int] == script[b as int]@);
    let steps = steps_of(&script[b], met);
    assert(s < steps.len());
    match &poll.on_timeout {
        Some(error) => stop(b, Ending::Failed { error: error.duplicate() }),
        None => begin_step(script, b, met, s + 1),
    }
}

fn begin_step(script: &Vec<Block>, b: usize, met: bool, s: usize) -> (r: (Cursor, Request))
    requires
        b < script.len(),
        s <= branch(script.deep_view()[b as int], met).len(),
    ensures
        r.0 == enter_step(script.deep_view(), b as int, met, s as int).0,
        r.1@ == enter_step(script.deep_view(), b as int, met, s as int).1,
    decreases script.len() - b, 0int, branch(script.deep_view()[b as int], met).len() - s, 1int,
{
    assert(script.deep_view()[b as int] == script[b as int]@);
    let steps = steps_of(&script[b], met);
    if s >= steps.len() {
        return begin_block(script, b + 1);
    }
    assert(steps.deep_view()[s as int] == steps[s as int]@);
    let here = Cursor { block: b, place: Place::Step { met, step: s } };
    match &steps[s] {
        Step::Run { command } => (here, Request::Exec { command: command.duplicate() }),
        Step::Try { command } => (here, Request::Exec { command: command.duplicate() }),
        Step::Sleep { millis } => (here, Request::Sleep { millis: *millis }),
        Step::Halt => stop(b, Ending::Halted),
        Step::Abort { error } => stop(b, Ending::Failed { error: error.duplicate() }),
        Step::Await { poll } => {
            let none_allowed = match poll.tries {
                Some(t) => t == 0,
                None => false,
            };
            if none_allowed {
                time_out(script, b, met, s, poll)
            } else if poll.pause_first {
                (
                    Cursor {
                        block: b,
                        place: Place::Wait { met, step: s, tries: 0, stage: WaitStage::PauseFirst },
                    },
                    Request::Sleep { millis: poll.interval_ms },
                )
            } else {
                (
                    Cursor {
                        block: b,
                        place: Place::Wait {
                            met,
                            step: s,
                            tries: 0,
                            stage: WaitStage::Probe { second: false },
                        },
                    },
                    ask(&poll.probe, false),
                )
            }
        },
        step => (here, Request::Perform { step: step.duplicate() }),
    }
}

fn begin_block(script: &Vec<Block>, b: usize) -> (r: (Cursor, Request))
    requires
        b <= script.len(),
    ensures
        r.0 == enter_block(script.deep_view(), b as int).0,
        r.1@ == enter_block(script.deep_view(), b as int).1,
    decreases script.len() - b, 1int, 0int, 0int,
{
    if b >= script.len() {
        return stop(b, Ending::Completed);
    }
    assert(script.deep_view()[b as int] == script[b as int]@);
    if script[b].conditions.len() == 0 {
        begin_step(script, b, true, 0)
    } else {
        assert(script[b as int].conditions.deep_view()[0] == script[b as int].conditions[0]@);
        (
            Cursor { block: b, place: Place::Test { condition: 0, second: false } },
            ask(&script[b].conditions[0].probe, false),
        )
    }
}

impl Cursor {
    /// Before anything was asked.
    pub fn start() -> (c: Cursor)
        ensures
            c == (Cursor { block: 0, place: Place::Start }),
    {
        Cursor { block: 0, place: Place::Start }
    }
}

/// Hands the host's reply to the machine and gets the next request.
pub fn advance(script: &Vec<Block>, cursor: Cursor, reply: &Reply) -> (r: (Cursor, Request))
    ensures
        r.0 == advanced(script.deep_view(), cursor, reply@).0,
        r.1@ == advanced(script.deep_view(), cursor, reply@).1,
{
    let b = cursor.block;
    match cursor.place {
        Place::Start => begin_block(script, 0),
        Place::End => stop(b, Ending::Completed),
        Place::Test { condition, second } => {
            if b >= script.len() {
                return stop(b, Ending::Failed { error: unexpected() });
            }
            assert(script.deep_view()[b as int] == script[b as int]@);
            let conditions = &script[b].conditions;
            if condition >= conditions.len() {
                return stop(b, Ending::Failed { error: unexpected() });
            }
            assert(conditions.deep_view()[condition as int] == conditions[condition as int]@);
            let c = &conditions[condition];
            match judge(&c.probe, second, reply) {
                Verdict::Fatal { error } => stop(b, Ending::Failed { error }),
                Verdict::Again => (
                    Cursor { block: b, place: Place::Test { condition, second: true } },
                    ask(&c.probe, true),
                ),
                Verdict::Answer { yes } => {
                    if yes != c.expect {
                        begin_step(script, b, false, 0)
                    } else if condition + 1 < conditions.len() {
                        assert(conditions.deep_view()[condition + 1] == conditions[condition
                            + 1]@);
                        (
                            Cursor {
                                block: b,
                                place: Place::Test { condition: condition + 1, second: false },
                            },
                            ask(&conditions[condition + 1].probe, false),
                        )
                    } else {
                        begin_step(script, b, true, 0)
                    }
                },
            }
        },
        Place::Step { met, step } => {
            if b >= script.len() {
                return stop(b, Ending::Failed { error: unexpected() });
            }
            assert(script.deep_view()[b as int] == script[b as int]@);
            let steps = steps_of(&script[b], met);
            if step >= steps.len() {
                return stop(b, Ending::Failed { error: unexpected() });
            }
            assert(steps.deep_view()[step as int] == steps[step as int]@);
            match &steps[step] {
                Step::Try { command } => begin_step(script, b, met, step + 1),
                _ => match reply {
                    Reply::Done { result: Err(error) } => stop(
                        b,
                        Ending::Failed { error: error.duplicate() },
                    ),
                    _ => begin_step(script, b, met, step + 1),
                },
            }
        },
        Place::Wait { met, step, tries, stage } => {
            if b >= script.len() {
                return stop(b, Ending::Failed { error: unexpected() });
            }
            assert(script.deep_view()[b as int] == script[b as int]@);
            let steps = steps_of(&script[b], met);
            if step >= steps.len() {
                return stop(b, Ending::Failed { error: unexpected() });
            }
            assert(steps.deep_view()[step as int] == steps[step as int]@);
            match &steps[step] {
                Step::Await { poll } => match stage {
                    WaitStage::PauseFirst => (
                        Cursor {
                            block: b,
                            place: Place::Wait {
                                met,
                                step,
                                tries,
                                stage: WaitStage::Probe { second: false },
                            },
                        },
                        ask(&poll.probe, false),
                    ),
                    WaitStage::Pause => (
                        Cursor {
                            block: b,
                            place: Place::Wait {
                                met,
                                step,
                                tries,
                                stage: WaitStage::Probe { second: false },
                            },
                        },
                        ask(&poll.probe, false),
                    ),
                    WaitStage::PauseLast => time_out(script, b, met, step, poll),
                    WaitStage::Probe { second } => match judge(&poll.probe, second, reply) {
                        Verdict::Fatal { error } => stop(b, Ending::Failed { error }),
                        Verdict::Again => (
                            Cursor {
                                block: b,
                                place: Place::Wait {
                                    met,
                                    step,
                                    tries,
                                    stage: WaitStage::Probe { second: true },
                                },
                            },
                            ask(&poll.probe, true),
                        ),
                        Verdict::Answer { yes } => {
                            let over: u32 = if tries == u32::MAX {
                                tries
                            } else {
                                tries + 1
                            };
                            let used_up = match poll.tries {
                                Some(t) => over >= t,
                                None => false,
                            };
                            if yes == poll.expect {
                                begin_step(script, b, met, step + 1)
                            } else if used_up {
                                if poll.pause_last {
                                    (
                                        Cursor {
                                            block: b,
                                            place: Place::Wait {
                                                met,
                                                step,
                                                tries: over,
                                                stage: WaitStage::PauseLast,
                                            },
                                        },
                                        Request::Sleep { millis: poll.interval_ms },
                                    )
                                } else {
                                    time_out(script, b, met, step, poll)
                                }
                            } else {
                                (
                                    Cursor {
                                        block: b,
                                        place: Place::Wait {
                                            met,
                                            step,
                                            tries: over,
                                            stage: WaitStage::Pause,
                                        },
                                    },
                                    Request::Sleep { millis: poll.interval_ms },
                                )
                            }
                        },
                    },
                },
                _ => stop(b, Ending::Failed { error: unexpected() }),
            }
        },
    }
}

/// How far into its block a place is: conditions come before steps, a
/// later condition or step after an earlier one, and within a wait every
/// try after the one before it.
pub open spec fn progress(place: Place) -> (int, int, int, int) {
    match place {
        Place::Start => (-1, 0, 0, 0),
        Place::Test { condition, second } => (
            0,
            condition as int,
            0,
            if second {
                1
            } else {
                0
            },
        ),
        Place::Step { met, step } => (1, step as int, 0, 0),
        Place::Wait { met, step, tries, stage } => (
            1,
            step as int,
            tries as int,
            match stage {
                WaitStage::Probe { second: false } => 1,
                WaitStage::Probe { second: true } => 2,
                _ => 0,
            },
        ),
        Place::End => (2, 0, 0, 0),
    }
}

/// `a` comes before `b`, one after another compared.
pub open spec fn less(a: (int, int, int, int), b: (int, int, int, int)) -> bool {
    a.0 < b.0 || (a.0 == b.0 && (a.1 < b.1 || (a.1 == b.1 && (a.2 < b.2 || (a.2 == b.2 && a.3
        < b.3)))))
}

/// The machine has moved on from `a` to `b`: to a later block, or further
/// into the same one.
pub open spec fn moved_on(a: Cursor, b: Cursor) -> bool {
    a.block < b.block || (a.block == b.block && less(progress(a.place), progress(b.place)))
}

/// Every list in the script is short enough to be counted.
pub open spec fn countable(script: Seq<BlockView>) -> bool {
    &&& script.len() <= usize::MAX
    &&& forall|i: int|
        0 <= i < script.len() ==> (#[trigger] script[i]).conditions.len() <= usize::MAX
            && script[i].steps.len() <= usize::MAX && script[i].otherwise.len() <= usize::MAX
}

/// Taking a step up leads to that step or further.
proof fn lemma_enter_step_moves_on(script: Seq<BlockView>, b: int, met: bool, s: int)
    requires
        countable(script),
        0 <= b < script.len(),
        0 <= s <= branch(script[b], met).len(),
    ensures
        ({
            let c = enter_step(script, b, met, s).0;
            c.place is End || (!(c.place is Start) && (c.block > b || (c.block == b && !less(
                progress(c.place),
                (1, s, 0, 0),
            ))))
        }),
    decreases script.len() - b, 0int, branch(script[b], met).len() - s, 1int,
{
    if s >= branch(script[b], met).len() {
        lemma_enter_block_moves_on(script, b + 1);
    } else {
        match branch(script[b], met)[s] {
            StepView::Await { poll } => {
                if poll.tries == Some(0u32) && poll.on_timeout is None {
                    lemma_enter_step_moves_on(script, b, met, s + 1);
                }
            },
            _ => {},
        }
    }
}

/// Taking a block up leads to that block or further.
proof fn lemma_enter_block_moves_on(script: Seq<BlockView>, b: int)
    requires
        countable(script),
        0 <= b <= script.len(),
    ensures
        ({
            let c = enter_block(script, b).0;
            c.place is End || (!(c.place is Start) && c.block >= b)
        }),
    decreases script.len() - b, 1int, 0int, 0int,
{
    if b < script.len() && script[b].conditions.len() == 0 {
        lemma_enter_step_moves_on(script, b, true, 0);
    }
}

/// Every reply moves the machine on.  Whatever the host answers, the
/// machine either ends the script or stands further into it than before:
/// in a later block, at a later condition or step, or, within a wait, at
/// a later try.  (A wait that has been tried as often as can be counted
/// is left out.)
pub proof fn lemma_every_reply_moves_on(script: Seq<BlockView>, cursor: Cursor, reply: ReplyView)
    requires
        countable(script),
        !(cursor.place is End),
        cursor.place is Start ==> cursor.block == 0,
        cursor.place matches Place::Wait { tries, .. } ==> tries < u32::MAX,
    ensures
        ({
            let next = advanced(script, cursor, reply).0;
            next.place is End || moved_on(cursor, next)
        }),
{
    let b = cursor.block as int;
    match cursor.place {
        Place::Start => {
            lemma_enter_block_moves_on(script, 0);
        },
        Place::End => {},
        Place::Test { condition, second } => {
            if b < script.len() && condition < script[b].conditions.len() {
                lemma_enter_step_moves_on(script, b, false, 0);
                lemma_enter_step_moves_on(script, b, true, 0);
            }
        },
        Place::Step { met, step } => {
            if b < script.len() && step < branch(script[b], met).len() {
                lemma_enter_step_moves_on(script, b, met, step + 1);
            }
        },
        Place::Wait { met, step, tries, stage } => {
            if b < script.len() && step < branch(script[b], met).len() {
                lemma_enter_step_moves_on(script, b, met, step + 1);
            }
        },
    }
}

} // verus!
