//! Hypervisor processes: starting one for a microVM, and stopping one or
//! all of them.

use vstd::prelude::*;
use vstd::string::*;
use crate::argv::{argv2, argv3};
use crate::command::{background, capture, HostCommand};
use crate::error::{about, bare, Failure, FailureKind};
use crate::script::{
    absent, always, either, failing, fetching, last, present, provided, push_block, push_step, run,
    script0, steps0, steps1, steps3, succeeds, Block, BlockView, Condition, ConditionView, Phase,
    PhaseView, Poll, PollView, Probe, ProbeView, Source, SourceView, Step, StepView,
};
use crate::state::entity::virtual_machine::{VirtualMachine, VirtualMachineView};
use crate::text::{
    decimal, join3, number, parse_u32, trim, trim_end_matches, trim_start_matches, trimmed,
    u64_to_string, without_leading, without_trailing,
};
use crate::vm::types::{VmOptions, VmOptionsView};

verus! {

/// The name that a hypervisor goes by: its API socket path without
/// `/tmp/firecracker-` in front and `.sock` behind.
pub open spec fn name_of_socket(api_socket: Seq<char>) -> Seq<char> {
    without_trailing(without_leading(api_socket, "/tmp/firecracker-"@), ".sock"@)
}

/// Some hypervisor is running.
pub open spec fn any_running() -> ConditionView {
    succeeds(capture("pgrep"@, seq!["-x"@, "firecracker"@], false))
}

/// Stops every hypervisor, if any runs: all are killed, their sockets
/// removed, and every microVM recorded as stopped.
pub open spec fn stop_all_script() -> Seq<BlockView> {
    seq![
        provided(
            any_running(),
            seq![
                run(capture("pkill"@, seq!["-x"@, "firecracker"@], true)),
                run(capture("bash"@, seq!["-c"@, "rm -rf /tmp/firecracker-*.sock"@], true)),
                StepView::UpdateAllStatus { status: "STOPPED"@ },
            ],
        ),
    ]
}

/// Kills the hypervisor, if its process is known; a kill that fails is
/// passed over.
pub open spec fn kill_steps(pid: Option<u32>) -> Seq<StepView> {
    match pid {
        Some(p) => seq![
            StepView::Try {
                command: capture("kill"@, seq!["-s"@, "KILL"@, decimal(p as nat)], true),
            },
        ],
        None => Seq::empty(),
    }
}

/// Stops the microVM `name`, recorded as `vm`.  Nothing is done about a
/// microVM that is not on record.  One whose socket is gone is recorded
/// as stopped.  Otherwise its hypervisor is killed, the socket on its
/// row removed, and it is recorded as stopped.
pub open spec fn stop_one_script(name: Seq<char>, vm: Option<VirtualMachineView>) -> Seq<BlockView> {
    match vm {
        None => Seq::empty(),
        Some(v) => seq![
            either(
                present(v.api_socket),
                kill_steps(v.pid) + seq![
                    run(capture("rm"@, seq!["-rf"@, v.api_socket], true)),
                    StepView::UpdateStatus { name, status: "STOPPED"@ },
                ],
                seq![StepView::UpdateStatus { name, status: "STOPPED"@ }],
            ),
        ],
    }
}

/// Stops the microVM `name`, or every hypervisor where no name is given.
pub open spec fn stop_script(name: Option<Seq<char>>, vm: Option<VirtualMachineView>) -> Seq<
    BlockView,
> {
    match name {
        None => stop_all_script(),
        Some(n) => stop_one_script(n, vm),
    }
}

/// Whether the microVM recorded as `vm` runs: its API socket exists.  A
/// microVM that is not on record does not run.
pub open spec fn running_probe(vm: Option<VirtualMachineView>) -> Option<ConditionView> {
    match vm {
        None => None,
        Some(v) => Some(present(v.api_socket)),
    }
}

/// Records a microVM whose socket is gone as stopped.
pub open spec fn reconcile_script(name: Seq<char>, vm: Option<VirtualMachineView>) -> Seq<BlockView> {
    match vm {
        None => Seq::empty(),
        Some(v) => seq![
            provided(
                absent(v.api_socket),
                seq![StepView::UpdateStatus { name, status: "STOPPED"@ }],
            ),
        ],
    }
}

/// Waits for the API socket: it is looked for every half second, 101
/// times at most; a socket that never appears fails with
/// `HypervisorStartTimeout`.
pub open spec fn await_socket_script(api_socket: Seq<char>) -> Seq<BlockView> {
    seq![
        always(
            seq![
                StepView::Await {
                    poll: PollView {
                        probe: ProbeView::PathExists { path: api_socket },
                        expect: true,
                        pause_first: false,
                        interval_ms: 500,
                        tries: Some(101u32),
                        pause_last: false,
                        on_timeout: Some(bare(FailureKind::HypervisorStartTimeout)),
                    },
                },
            ],
        ),
    ]
}

/// Where the start of a hypervisor stands, and its process id once it is
/// known.
#[derive(Clone, Debug, PartialEq, Eq)]
pub struct Started {
    pub phase: Phase,
    pub pid: Option<u32>,
}

pub struct StartedView {
    pub phase: PhaseView,
    pub pid: Option<u32>,
}

impl View for Started {
    type V = StartedView;

    open spec fn view(&self) -> StartedView {
        StartedView { phase: self.phase@, pid: self.pid }
    }
}

/// The start of the hypervisor for `config`, given what has been fetched
/// so far: a hypervisor that runs under the same name is stopped and a
/// new one is started in the background; with its process id known, its
/// API socket is waited for.
pub open spec fn start_of(
    config: VmOptionsView,
    vm: Option<VirtualMachineView>,
    fetched: Seq<Seq<char>>,
) -> StartedView {
    if fetched.len() == 0 {
        StartedView {
            phase: fetching(
                stop_one_script(name_of_socket(config.api_socket), vm),
                SourceView::Spawned {
                    command: background(
                        "firecracker"@,
                        seq!["--api-sock"@, config.api_socket],
                        true,
                    ),
                },
            ),
            pid: None,
        }
    } else {
        match number(trimmed(fetched[0])) {
            None => StartedView {
                phase: failing(about(FailureKind::ExternalCommandFailed, "firecracker"@)),
                pid: None,
            },
            Some(pid) => StartedView {
                phase: last(await_socket_script(config.api_socket)),
                pid: Some(pid),
            },
        }
    }
}

/// The name that the hypervisor behind `api_socket` goes by.
pub fn socket_name(api_socket: &str) -> (r: String)
    ensures
        r@ == name_of_socket(api_socket@),
{
    let tail = trim_start_matches(api_socket, "/tmp/firecracker-");
    trim_end_matches(tail.as_str(), ".sock")
}

/// The question whether any hypervisor runs.
pub fn is_running() -> (r: Condition)
    ensures
        r@ == any_running(),
{
    Condition::succeeds(HostCommand::capture("pgrep", argv2("-x", "firecracker"), false))
}

pub fn stop_all() -> (r: Vec<Block>)
    ensures
        r.deep_view() == stop_all_script(),
{
    let mut script = script0();
    push_block(
        &mut script,
        Block::provided(
            is_running(),
            steps3(
                Step::capture("pkill", argv2("-x", "firecracker"), true),
                Step::capture("bash", argv2("-c", "rm -rf /tmp/firecracker-*.sock"), true),
                Step::UpdateAllStatus { status: String::from_str("STOPPED") },
            ),
        ),
    );
    script
}

fn stop_one(name: &str, vm: &Option<VirtualMachine>) -> (r: Vec<Block>)
    ensures
        r.deep_view() == stop_one_script(name@, vm.deep_view()),
{
    let mut script = script0();
    match vm {
        None => {},
        Some(v) => {
            let mut steps = steps0();
            match v.pid {
                Some(p) => {
                    push_step(
                        &mut steps,
                        Step::attempt(
                            HostCommand::capture(
                                "kill",
                                argv3("-s", "KILL", u64_to_string(p as u64).as_str()),
                                true,
                            ),
                        ),
                    );
                },
                None => {},
            }
            push_step(
                &mut steps,
                Step::capture("rm", argv2("-rf", v.api_socket.as_str()), true),
            );
            push_step(
                &mut steps,
                Step::UpdateStatus {
                    name: String::from_str(name),
                    status: String::from_str("STOPPED"),
                },
            );
            assert(steps.deep_view() =~= kill_steps(v@.pid) + seq![
                run(capture("rm"@, seq!["-rf"@, v@.api_socket], true)),
                StepView::UpdateStatus { name: name@, status: "STOPPED"@ },
            ]);
            push_block(
                &mut script,
                Block::either(
                    Condition::present(v.api_socket.as_str()),
                    steps,
                    steps1(
                        Step::UpdateStatus {
                            name: String::from_str(name),
                            status: String::from_str("STOPPED"),
                        },
                    ),
                ),
            );
        },
    }
    script
}

/// Stops the microVM `name`, on record as `vm`, or every hypervisor where
/// no name is given.
pub fn stop(name: &Option<String>, vm: &Option<VirtualMachine>) -> (r: Vec<Block>)
    ensures
        r.deep_view() == stop_script(name.deep_view(), vm.deep_view()),
{
    match name {
        None => stop_all(),
        Some(n) => stop_one(n.as_str(), vm),
    }
}

/// How to tell whether a microVM runs, and what to record if it does not.
#[derive(Clone, Debug, PartialEq, Eq)]
pub struct RunningCheck {
    /// The question to ask; `None` where the answer is no in any case.
    pub probe: Option<Condition>,
    /// What to do once the answer is no.
    pub reconcile: Vec<Block>,
}

/// How to tell whether the microVM `name`, on record as `vm`, runs.
pub fn vm_is_running(name: &str, vm: &Option<VirtualMachine>) -> (r: RunningCheck)
    ensures
        r.probe.deep_view() == running_probe(vm.deep_view()),
        r.reconcile.deep_view() == reconcile_script(name@, vm.deep_view()),
{
    match vm {
        None => RunningCheck { probe: None, reconcile: script0() },
        Some(v) => {
            let mut script = script0();
            push_block(
                &mut script,
                Block::provided(
                    Condition::absent(v.api_socket.as_str()),
                    steps1(
                        Step::UpdateStatus {
                            name: String::from_str(name),
                            status: String::from_str("STOPPED"),
                        },
                    ),
                ),
            );
            RunningCheck { probe: Some(Condition::present(v.api_socket.as_str())), reconcile: script }
        },
    }
}

fn await_socket(api_socket: &str) -> (r: Vec<Block>)
    ensures
        r.deep_view() == await_socket_script(api_socket@),
{
    let mut script = script0();
    push_block(
        &mut script,
        Block::always(
            steps1(
                Step::Await {
                    poll: Poll {
                        probe: Probe::PathExists { path: String::from_str(api_socket) },
                        expect: true,
                        pause_first: false,
                        interval_ms: 500,
                        tries: Some(101),
                        pause_last: false,
                        on_timeout: Some(Failure::new(FailureKind::HypervisorStartTimeout)),
                    },
                },
            ),
        ),
    );
    script
}

/// Starts the hypervisor for `config`; `vm` is the microVM on record
/// under the name in the socket path, if there is one.
///
/// Called again with every value fetched so far, it says what to do next;
/// with one value or more it is complete and names the process.
pub fn start(config: &VmOptions, vm: &Option<VirtualMachine>, fetched: &Vec<String>) -> (r: Started)
    ensures
        r@ == start_of(
            config@,
            vm.deep_view(),
            crate::prepare::downloader::first_values(fetched.deep_view(), 1),
        ),
{
    let socket = config.api_socket.as_str();
    if fetched.len() == 0 {
        let name = socket_name(socket);
        return Started {
            phase: Phase::fetching(
                stop_one(name.as_str(), vm),
                Source::Spawned {
                    command: HostCommand::background(
                        "firecracker",
                        argv2("--api-sock", socket),
                        true,
                    ),
                },
            ),
            pid: None,
        };
    }
    assert(fetched.deep_view()[0] == fetched[0]@);
    match parse_u32(trim(fetched[0].as_str()).as_str()) {
        None => Started {
            phase: Phase::failing(Failure::about(FailureKind::ExternalCommandFailed, "firecracker")),
            pid: None,
        },
        Some(pid) => Started { phase: Phase::last(await_socket(socket)), pid: Some(pid) },
    }
}

} // verus!
