//! Host scripts: what a workflow asks of the host, written down as data.
//!
//! A script is a list of blocks.  A block runs its `steps` when every
//! one of its conditions holds, and its `otherwise` steps as soon as one does
//! not; conditions are examined in order, each at the moment the block is
//! reached.  Nothing here touches the host: `crate::machine` walks a script
//! one request at a time.

use vstd::prelude::*;
use vstd::string::*;
use crate::command::{CommandView, HostCommand};
use crate::error::{Failure, FailureView};

verus! {

/// A question put to the host that is answered by yes or no.
#[derive(Clone, Debug, PartialEq, Eq)]
pub enum Probe {
    /// The path exists.
    PathExists { path: String },
    /// The command can be started and exits with success.
    Succeeds { command: HostCommand },
    /// The command's standard output contains `needle`.  A command that
    /// fails ends the script.
    OutputContains { command: HostCommand, needle: String },
    /// The command's standard output, without surrounding white space, is
    /// `text`.  A command that fails ends the script.
    OutputIs { command: HostCommand, text: String },
    /// The SSH keys installed at `path` are not `keys`: the file is absent,
    /// or its SHA-256 differs from that of the keys.
    KeysDiffer { path: String, keys: Vec<String> },
}

pub enum ProbeView {
    PathExists { path: Seq<char> },
    Succeeds { command: CommandView },
    OutputContains { command: CommandView, needle: Seq<char> },
    OutputIs { command: CommandView, text: Seq<char> },
    KeysDiffer { path: Seq<char>, keys: Seq<Seq<char>> },
}

impl View for Probe {
    type V = ProbeView;

    open spec fn view(&self) -> ProbeView {
        match *self {
            Probe::PathExists { path } => ProbeView::PathExists { path: path@ },
            Probe::Succeeds { command } => ProbeView::Succeeds { command: command@ },
            Probe::OutputContains { command, needle } => ProbeView::OutputContains {
                command: command@,
                needle: needle@,
            },
            Probe::OutputIs { command, text } => ProbeView::OutputIs {
                command: command@,
                text: text@,
            },
            Probe::KeysDiffer { path, keys } => ProbeView::KeysDiffer {
                path: path@,
                keys: keys.deep_view(),
            },
        }
    }
}

impl DeepView for Probe {
    type V = ProbeView;

    open spec fn deep_view(&self) -> ProbeView {
        self@
    }
}

impl Probe {
    /// A copy of this probe.
    pub fn duplicate(&self) -> (r: Probe)
        ensures
            r@ == self@,
    {
        match self {
            Probe::PathExists { path } => Probe::PathExists { path: path.clone() },
            Probe::Succeeds { command } => Probe::Succeeds { command: command.duplicate() },
            Probe::OutputContains { command, needle } => Probe::OutputContains {
                command: command.duplicate(),
                needle: needle.clone(),
            },
            Probe::OutputIs { command, text } => Probe::OutputIs {
                command: command.duplicate(),
                text: text.clone(),
            },
            Probe::KeysDiffer { path, keys } => Probe::KeysDiffer {
                path: path.clone(),
                keys: keys.clone(),
            },
        }
    }
}

/// A probe together with the answer that is wanted.
#[derive(Clone, Debug, PartialEq, Eq)]
pub struct Condition {
    pub probe: Probe,
    pub expect: bool,
}

pub struct ConditionView {
    pub probe: ProbeView,
    pub expect: bool,
}

impl View for Condition {
    type V = ConditionView;

    open spec fn view(&self) -> ConditionView {
        ConditionView { probe: self.probe@, expect: self.expect }
    }
}

impl DeepView for Condition {
    type V = ConditionView;

    open spec fn deep_view(&self) -> ConditionView {
        self@
    }
}

/// Waiting for the host: the probe is repeated, with a pause between two
/// tries, until it answers `expect`.
#[derive(Clone, Debug, PartialEq, Eq)]
pub struct Poll {
    pub probe: Probe,
    pub expect: bool,
    /// Pause once before the first try.
    pub pause_first: bool,
    /// Milliseconds between two tries.
    pub interval_ms: u64,
    /// Largest number of tries; `None` waits for ever.
    pub tries: Option<u32>,
    /// Pause once more after the last try has failed.
    pub pause_last: bool,
    /// What a wait that ran out ends the script with; `None` lets it go on.
    pub on_timeout: Option<Failure>,
}

pub struct PollView {
    pub probe: ProbeView,
    pub expect: bool,
    pub pause_first: bool,
    pub interval_ms: u64,
    pub tries: Option<u32>,
    pub pause_last: bool,
    pub on_timeout: Option<FailureView>,
}

impl View for Poll {
    type V = PollView;

    open spec fn view(&self) -> PollView {
        PollView {
            probe: self.probe@,
            expect: self.expect,
            pause_first: self.pause_first,
            interval_ms: self.interval_ms,
            tries: self.tries,
            pause_last: self.pause_last,
            on_timeout: match self.on_timeout {
                Some(e) => Some(e@),
                None => None,
            },
        }
    }
}

/// One thing done to the host.
#[derive(Clone, Debug, PartialEq, Eq)]
pub enum Step {
    /// Run the command; its failure ends the script with that failure.
    Run { command: HostCommand },
    /// Run the command and go on whatever comes of it.
    Try { command: HostCommand },
    /// Replace the file's content.
    WriteFile { path: String, content: String },
    /// Append each line, newline-terminated, creating the file if needed.
    AppendLines { path: String, lines: Vec<String> },
    /// Create the directory and its parents.
    CreateDir { path: String },
    /// Create the file empty, or empty it.
    CreateFile { path: String },
    /// Copy the file's content over `to`.
    CopyFile { from: String, to: String },
    /// Remove the file.
    RemoveFile { path: String },
    /// Pause.
    Sleep { millis: u64 },
    /// Wait for the host.
    Await { poll: Poll },
    /// Record the status of the microVMs known by `name`.
    UpdateStatus { name: String, status: String },
    /// Record the status of every microVM.
    UpdateAllStatus { status: String },
    /// Strike the microVMs known by `name` from the record.
    DeleteVm { name: String },
    /// Start waiting, without holding the script up, for a lease event of
    /// type `msgtype`; when it comes, the guest behind `api_socket` is
    /// entered into the DNS zone.
    WatchLease { msgtype: String, api_socket: String },
    /// End the workflow here, successfully.
    Halt,
    /// End the workflow here with this failure.
    Abort { error: Failure },
}

pub enum StepView {
    Run { command: CommandView },
    Try { command: CommandView },
    WriteFile { path: Seq<char>, content: Seq<char> },
    AppendLines { path: Seq<char>, lines: Seq<Seq<char>> },
    CreateDir { path: Seq<char> },
    CreateFile { path: Seq<char> },
    CopyFile { from: Seq<char>, to: Seq<char> },
    RemoveFile { path: Seq<char> },
    Sleep { millis: u64 },
    Await { poll: PollView },
    UpdateStatus { name: Seq<char>, status: Seq<char> },
    UpdateAllStatus { status: Seq<char> },
    DeleteVm { name: Seq<char> },
    WatchLease { msgtype: Seq<char>, api_socket: Seq<char> },
    Halt,
    Abort { error: FailureView },
}

impl View for Step {
    type V = StepView;

    open spec fn view(&self) -> StepView {
        match *self {
            Step::Run { command } => StepView::Run { command: command@ },
            Step::Try { command } => StepView::Try { command: command@ },
            Step::WriteFile { path, content } => StepView::WriteFile {
                path: path@,
                content: content@,
            },
            Step::AppendLines { path, lines } => StepView::AppendLines {
                path: path@,
                lines: lines.deep_view(),
            },
            Step::CreateDir { path } => StepView::CreateDir { path: path@ },
            Step::CreateFile { path } => StepView::CreateFile { path: path@ },
            Step::CopyFile { from, to } => StepView::CopyFile { from: from@, to: to@ },
            Step::RemoveFile { path } => StepView::RemoveFile { path: path@ },
            Step::Sleep { millis } => StepView::Sleep { millis },
            Step::Await { poll } => StepView::Await { poll: poll@ },
            Step::UpdateStatus { name, status } => StepView::UpdateStatus {
                name: name@,
                status: status@,
            },
            Step::UpdateAllStatus { status } => StepView::UpdateAllStatus { status: status@ },
            Step::DeleteVm { name } => StepView::DeleteVm { name: name@ },
            Step::WatchLease { msgtype, api_socket } => StepView::WatchLease {
                msgtype: msgtype@,
                api_socket: api_socket@,
            },
            Step::Halt => StepView::Halt,
            Step::Abort { error } => StepView::Abort { error: error@ },
        }
    }
}

impl DeepView for Step {
    type V = StepView;

    open spec fn deep_view(&self) -> StepView {
        self@
    }
}

impl Poll {
    /// A copy of this wait.
    pub fn duplicate(&self) -> (r: Poll)
        ensures
            r@ == self@,
    {
        Poll {
            probe: self.probe.duplicate(),
            expect: self.expect,
            pause_first: self.pause_first,
            interval_ms: self.interval_ms,
            tries: self.tries,
            pause_last: self.pause_last,
            on_timeout: match &self.on_timeout {
                Some(e) => Some(e.duplicate()),
                None => None,
            },
        }
    }
}

impl Step {
    /// A copy of this step.
    pub fn duplicate(&self) -> (r: Step)
        ensures
            r@ == self@,
    {
        match self {
            Step::Run { command } => Step::Run { command: command.duplicate() },
            Step::Try { command } => Step::Try { command: command.duplicate() },
            Step::WriteFile { path, content } => Step::WriteFile {
                path: path.clone(),
                content: content.clone(),
            },
            Step::AppendLines { path, lines } => Step::AppendLines {
                path: path.clone(),
                lines: lines.clone(),
            },
            Step::CreateDir { path } => Step::CreateDir { path: path.clone() },
            Step::CreateFile { path } => Step::CreateFile { path: path.clone() },
            Step::CopyFile { from, to } => Step::CopyFile { from: from.clone(), to: to.clone() },
            Step::RemoveFile { path } => Step::RemoveFile { path: path.clone() },
            Step::Sleep { millis } => Step::Sleep { millis: *millis },
            Step::Await { poll } => Step::Await { poll: poll.duplicate() },
            Step::UpdateStatus { name, status } => Step::UpdateStatus {
                name: name.clone(),
                status: status.clone(),
            },
            Step::UpdateAllStatus { status } => Step::UpdateAllStatus { status: status.clone() },
            Step::DeleteVm { name } => Step::DeleteVm { name: name.clone() },
            Step::WatchLease { msgtype, api_socket } => Step::WatchLease {
                msgtype: msgtype.clone(),
                api_socket: api_socket.clone(),
            },
            Step::Halt => Step::Halt,
            Step::Abort { error } => Step::Abort { error: error.duplicate() },
        }
    }
}

/// Steps under conditions.
#[derive(Clone, Debug, PartialEq, Eq)]
pub struct Block {
    pub conditions: Vec<Condition>,
    pub steps: Vec<Step>,
    pub otherwise: Vec<Step>,
}

pub struct BlockView {
    pub conditions: Seq<ConditionView>,
    pub steps: Seq<StepView>,
    pub otherwise: Seq<StepView>,
}

impl View for Block {
    type V = BlockView;

    open spec fn view(&self) -> BlockView {
        BlockView {
            conditions: self.conditions.deep_view(),
            steps: self.steps.deep_view(),
            otherwise: self.otherwise.deep_view(),
        }
    }
}

impl DeepView for Block {
    type V = BlockView;

    open spec fn deep_view(&self) -> BlockView {
        self@
    }
}

/// A value that a workflow needs from the host before it can go on.
#[derive(Clone, Debug, PartialEq, Eq)]
pub enum Source {
    /// The standard output of a command that must succeed.
    Stdout { command: HostCommand },
    /// The process id, in decimal, of a command started in the background.
    Spawned { command: HostCommand },
    /// The content of a file.
    FileContent { path: String },
    /// The absolute form of a path, every link resolved.
    Canonical { path: String },
    /// The last path that matches a shell pattern.
    LastMatch { pattern: String },
    /// The caller's working directory.
    WorkingDir,
}

pub enum SourceView {
    Stdout { command: CommandView },
    Spawned { command: CommandView },
    FileContent { path: Seq<char> },
    Canonical { path: Seq<char> },
    LastMatch { pattern: Seq<char> },
    WorkingDir,
}

impl View for Source {
    type V = SourceView;

    open spec fn view(&self) -> SourceView {
        match *self {
            Source::Stdout { command } => SourceView::Stdout { command: command@ },
            Source::Spawned { command } => SourceView::Spawned { command: command@ },
            Source::FileContent { path } => SourceView::FileContent { path: path@ },
            Source::Canonical { path } => SourceView::Canonical { path: path@ },
            Source::LastMatch { pattern } => SourceView::LastMatch { pattern: pattern@ },
            Source::WorkingDir => SourceView::WorkingDir,
        }
    }
}

impl DeepView for Source {
    type V = SourceView;

    open spec fn deep_view(&self) -> SourceView {
        self@
    }
}

/// The standard output of a captured command.
pub open spec fn stdout_of(program: Seq<char>, args: Seq<Seq<char>>, sudo: bool) -> SourceView {
    SourceView::Stdout { command: crate::command::capture(program, args, sudo) }
}

impl Source {
    pub fn stdout_of(program: &str, args: Vec<String>, sudo: bool) -> (s: Source)
        ensures
            s@ == stdout_of(program@, args.deep_view(), sudo),
    {
        Source::Stdout { command: HostCommand::capture(program, args, sudo) }
    }
}

/// A workflow that another workflow passes through.
#[derive(Clone, Copy, Debug, PartialEq, Eq, Structural)]
pub enum Subflow {
    /// The host network fabric for the microVM at hand.
    Network,
}

/// What follows once a phase's script has run to its end.
#[derive(Clone, Debug, PartialEq, Eq)]
pub enum Next {
    /// The workflow is complete.
    Finish,
    /// Fetch the value and ask the workflow again with it added to what
    /// was fetched before.
    Fetch { source: Source },
    /// Carry out another workflow to its end and ask this one again with
    /// an empty value added to what was fetched before.
    Enter { flow: Subflow },
    /// The workflow ends with this failure.
    Fail { error: Failure },
}

pub enum NextView {
    Finish,
    Fetch { source: SourceView },
    Enter { flow: Subflow },
    Fail { error: FailureView },
}

impl View for Next {
    type V = NextView;

    open spec fn view(&self) -> NextView {
        match *self {
            Next::Finish => NextView::Finish,
            Next::Fetch { source } => NextView::Fetch { source: source@ },
            Next::Enter { flow } => NextView::Enter { flow },
            Next::Fail { error } => NextView::Fail { error: error@ },
        }
    }
}

/// A stretch of a workflow between two values fetched from the host: the
/// script to run now, and what follows.
#[derive(Clone, Debug, PartialEq, Eq)]
pub struct Phase {
    pub script: Vec<Block>,
    pub next: Next,
}

pub struct PhaseView {
    pub script: Seq<BlockView>,
    pub next: NextView,
}

impl View for Phase {
    type V = PhaseView;

    open spec fn view(&self) -> PhaseView {
        PhaseView { script: self.script.deep_view(), next: self.next@ }
    }
}

impl DeepView for Phase {
    type V = PhaseView;

    open spec fn deep_view(&self) -> PhaseView {
        self@
    }
}

/// The last phase of a workflow.
pub open spec fn last(script: Seq<BlockView>) -> PhaseView {
    PhaseView { script, next: NextView::Finish }
}

/// A phase after which a value is fetched.
pub open spec fn fetching(script: Seq<BlockView>, source: SourceView) -> PhaseView {
    PhaseView { script, next: NextView::Fetch { source } }
}

/// A workflow that cannot go on.
pub open spec fn failing(error: FailureView) -> PhaseView {
    PhaseView { script: Seq::empty(), next: NextView::Fail { error } }
}

/// The path exists.
pub open spec fn present(path: Seq<char>) -> ConditionView {
    ConditionView { probe: ProbeView::PathExists { path }, expect: true }
}

/// The path does not exist.
pub open spec fn absent(path: Seq<char>) -> ConditionView {
    ConditionView { probe: ProbeView::PathExists { path }, expect: false }
}

/// The command succeeds.
pub open spec fn succeeds(command: CommandView) -> ConditionView {
    ConditionView { probe: ProbeView::Succeeds { command }, expect: true }
}

/// The command fails.
pub open spec fn fails(command: CommandView) -> ConditionView {
    ConditionView { probe: ProbeView::Succeeds { command }, expect: false }
}

/// A step that runs a command which must succeed.
pub open spec fn run(command: CommandView) -> StepView {
    StepView::Run { command }
}

/// Steps carried out in any case.
pub open spec fn always(steps: Seq<StepView>) -> BlockView {
    BlockView { conditions: Seq::empty(), steps, otherwise: Seq::empty() }
}

/// Steps carried out when the condition holds.
pub open spec fn provided(condition: ConditionView, steps: Seq<StepView>) -> BlockView {
    BlockView { conditions: seq![condition], steps, otherwise: Seq::empty() }
}

/// Steps for either answer of one condition.
pub open spec fn either(
    condition: ConditionView,
    steps: Seq<StepView>,
    otherwise: Seq<StepView>,
) -> BlockView {
    BlockView { conditions: seq![condition], steps, otherwise }
}

impl Condition {
    pub fn present(path: &str) -> (c: Condition)
        ensures
            c@ == present(path@),
    {
        Condition { probe: Probe::PathExists { path: String::from_str(path) }, expect: true }
    }

    pub fn absent(path: &str) -> (c: Condition)
        ensures
            c@ == absent(path@),
    {
        Condition { probe: Probe::PathExists { path: String::from_str(path) }, expect: false }
    }

    pub fn succeeds(command: HostCommand) -> (c: Condition)
        ensures
            c@ == succeeds(command@),
    {
        Condition { probe: Probe::Succeeds { command }, expect: true }
    }

    pub fn fails(command: HostCommand) -> (c: Condition)
        ensures
            c@ == fails(command@),
    {
        Condition { probe: Probe::Succeeds { command }, expect: false }
    }
}

/// A step that runs a command and goes on whatever comes of it.
pub open spec fn attempt(command: CommandView) -> StepView {
    StepView::Try { command }
}

impl Step {
    pub fn run(command: HostCommand) -> (s: Step)
        ensures
            s@ == run(command@),
    {
        Step::Run { command }
    }

    pub fn attempt(command: HostCommand) -> (s: Step)
        ensures
            s@ == attempt(command@),
    {
        Step::Try { command }
    }

    /// A captured command that must succeed.
    pub fn capture(program: &str, args: Vec<String>, sudo: bool) -> (s: Step)
        ensures
            s@ == run(crate::command::capture(program@, args.deep_view(), sudo)),
    {
        Step::Run { command: HostCommand::capture(program, args, sudo) }
    }

    /// A command on the caller's streams that must succeed.
    pub fn stream(program: &str, args: Vec<String>, sudo: bool) -> (s: Step)
        ensures
            s@ == run(crate::command::stream(program@, args.deep_view(), sudo)),
    {
        Step::Run { command: HostCommand::stream(program, args, sudo) }
    }
}

pub fn steps0() -> (v: Vec<Step>)
    ensures
        v.deep_view() == Seq::<StepView>::empty(),
{
    let v: Vec<Step> = Vec::new();
    assert(v.deep_view() =~= Seq::<StepView>::empty());
    v
}

pub fn steps1(a: Step) -> (v: Vec<Step>)
    ensures
        v.deep_view() == seq![a@],
{
    let mut v: Vec<Step> = Vec::new();
    v.push(a);
    assert(v.deep_view() =~= seq![a@]);
    v
}

pub fn steps2(a: Step, b: Step) -> (v: Vec<Step>)
    ensures
        v.deep_view() == seq![a@, b@],
{
    let mut v: Vec<Step> = Vec::new();
    v.push(a);
    v.push(b);
    assert(v.deep_view() =~= seq![a@, b@]);
    v
}

pub fn steps3(a: Step, b: Step, c: Step) -> (v: Vec<Step>)
    ensures
        v.deep_view() == seq![a@, b@, c@],
{
    let mut v: Vec<Step> = Vec::new();
    v.push(a);
    v.push(b);
    v.push(c);
    assert(v.deep_view() =~= seq![a@, b@, c@]);
    v
}

pub fn steps4(a: Step, b: Step, c: Step, d: Step) -> (v: Vec<Step>)
    ensures
        v.deep_view() == seq![a@, b@, c@, d@],
{
    let mut v: Vec<Step> = Vec::new();
    v.push(a);
    v.push(b);
    v.push(c);
    v.push(d);
    assert(v.deep_view() =~= seq![a@, b@, c@, d@]);
    v
}

pub fn steps6(a: Step, b: Step, c: Step, d: Step, e: Step, f: Step) -> (v: Vec<Step>)
    ensures
        v.deep_view() == seq![a@, b@, c@, d@, e@, f@],
{
    let mut v: Vec<Step> = Vec::new();
    v.push(a);
    v.push(b);
    v.push(c);
    v.push(d);
    v.push(e);
    v.push(f);
    assert(v.deep_view() =~= seq![a@, b@, c@, d@, e@, f@]);
    v
}

pub fn steps8(a: Step, b: Step, c: Step, d: Step, e: Step, f: Step, g: Step, h: Step) -> (v: Vec<Step>)
    ensures
        v.deep_view() == seq![a@, b@, c@, d@, e@, f@, g@, h@],
{
    let mut v: Vec<Step> = Vec::new();
    v.push(a);
    v.push(b);
    v.push(c);
    v.push(d);
    v.push(e);
    v.push(f);
    v.push(g);
    v.push(h);
    assert(v.deep_view() =~= seq![a@, b@, c@, d@, e@, f@, g@, h@]);
    v
}

pub fn steps9(a: Step, b: Step, c: Step, d: Step, e: Step, f: Step, g: Step, h: Step, i: Step) -> (v: Vec<Step>)
    ensures
        v.deep_view() == seq![a@, b@, c@, d@, e@, f@, g@, h@, i@],
{
    let mut v: Vec<Step> = Vec::new();
    v.push(a);
    v.push(b);
    v.push(c);
    v.push(d);
    v.push(e);
    v.push(f);
    v.push(g);
    v.push(h);
    v.push(i);
    assert(v.deep_view() =~= seq![a@, b@, c@, d@, e@, f@, g@, h@, i@]);
    v
}

/// Adds a step at the end.
pub fn push_step(v: &mut Vec<Step>, s: Step)
    ensures
        final(v).deep_view() == old(v).deep_view().push(s@),
{
    v.push(s);
    assert(v.deep_view() =~= old(v).deep_view().push(s@));
}

impl Block {
    pub fn always(steps: Vec<Step>) -> (b: Block)
        ensures
            b@ == always(steps.deep_view()),
    {
        let conditions: Vec<Condition> = Vec::new();
        let otherwise: Vec<Step> = Vec::new();
        assert(conditions.deep_view() =~= Seq::<ConditionView>::empty());
        assert(otherwise.deep_view() =~= Seq::<StepView>::empty());
        Block { conditions, steps, otherwise }
    }

    pub fn provided(condition: Condition, steps: Vec<Step>) -> (b: Block)
        ensures
            b@ == provided(condition@, steps.deep_view()),
    {
        let mut conditions: Vec<Condition> = Vec::new();
        conditions.push(condition);
        let otherwise: Vec<Step> = Vec::new();
        assert(conditions.deep_view() =~= seq![condition@]);
        assert(otherwise.deep_view() =~= Seq::<StepView>::empty());
        Block { conditions, steps, otherwise }
    }

    pub fn either(condition: Condition, steps: Vec<Step>, otherwise: Vec<Step>) -> (b: Block)
        ensures
            b@ == either(condition@, steps.deep_view(), otherwise.deep_view()),
    {
        let mut conditions: Vec<Condition> = Vec::new();
        conditions.push(condition);
        assert(conditions.deep_view() =~= seq![condition@]);
        Block { conditions, steps, otherwise }
    }

    /// Steps carried out when both conditions hold, the second examined
    /// only if the first holds.
    pub fn provided_both(first: Condition, second: Condition, steps: Vec<Step>) -> (b: Block)
        ensures
            b@ == (BlockView {
                conditions: seq![first@, second@],
                steps: steps.deep_view(),
                otherwise: Seq::empty(),
            }),
    {
        let mut conditions: Vec<Condition> = Vec::new();
        conditions.push(first);
        conditions.push(second);
        let otherwise: Vec<Step> = Vec::new();
        assert(conditions.deep_view() =~= seq![first@, second@]);
        assert(otherwise.deep_view() =~= Seq::<StepView>::empty());
        Block { conditions, steps, otherwise }
    }
}

/// An empty script.
pub fn script0() -> (v: Vec<Block>)
    ensures
        v.deep_view() == Seq::<BlockView>::empty(),
{
    let v: Vec<Block> = Vec::new();
    assert(v.deep_view() =~= Seq::<BlockView>::empty());
    v
}

/// Adds a block at the end of a script.
pub fn push_block(v: &mut Vec<Block>, b: Block)
    ensures
        final(v).deep_view() == old(v).deep_view().push(b@),
{
    v.push(b);
    assert(v.deep_view() =~= old(v).deep_view().push(b@));
}

/// Adds a script at the end of another.
pub fn append_script(v: &mut Vec<Block>, more: Vec<Block>)
    ensures
        final(v).deep_view() == old(v).deep_view() + more.deep_view(),
{
    let mut more = more;
    let ghost added = more.deep_view();
    v.append(&mut more);
    assert(v.deep_view() =~= old(v).deep_view() + added);
}

impl Phase {
    /// The last phase of a workflow.
    pub fn last(script: Vec<Block>) -> (p: Phase)
        ensures
            p@ == last(script.deep_view()),
    {
        Phase { script, next: Next::Finish }
    }

    /// A phase after which a value is fetched.
    pub fn fetching(script: Vec<Block>, source: Source) -> (p: Phase)
        ensures
            p@ == fetching(script.deep_view(), source@),
    {
        Phase { script, next: Next::Fetch { source } }
    }

    /// A workflow that cannot go on.
    pub fn failing(error: Failure) -> (p: Phase)
        ensures
            p@ == failing(error@),
    {
        Phase { script: script0(), next: Next::Fail { error } }
    }
}

} // verus!
