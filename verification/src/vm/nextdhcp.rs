//! NextDHCP, a DHCP server that publishes lease events by itself.

use vstd::prelude::*;
use vstd::string::*;
use crate::argv::{argv1, argv2};
use crate::command::{capture, HostCommand};
use crate::error::{about, Failure, FailureKind};
use crate::script::{
    always, fails, provided, push_block, run, script0, steps1, steps2, steps4, succeeds, Block,
    BlockView, Condition, ConditionView, Step, StepView,
};
use crate::text::{join3, join4};

verus! {

pub const NEXTDHCP_CONFIG_PATH: &'static str = "/etc/nextdhcp/Dhcpfile";

/// The server's configuration: the guests' subnet with its range, the
/// bridge as router and resolver, and lease events published to the
/// broker.
pub const NEXTDHCP_CONFIG: &'static str =
    "\n172.16.0.1/24 {\n  lease 30m\n\n  range 172.16.0.2 172.16.0.150\n\n  mqtt {\n    name default\n    broker tcp://localhost:1883\n\n    topic /dhcp/hwaddr/{hwaddr}\n    payload \"{msgtype} {hwaddr} {requestedip} {state}\"\n    qos 1\n  }\n\n  option {\n    router 172.16.0.1\n    nameserver 172.16.0.1\n    }\n  }\n";

/// The server is on the path.
pub open spec fn nextdhcp_installed() -> ConditionView {
    succeeds(capture("which"@, seq!["nextdhcp"@], false))
}

/// Enables the server and starts it afresh.
pub open spec fn restart_nextdhcp_steps() -> Seq<StepView> {
    seq![
        run(capture("systemctl"@, seq!["enable"@, "nextdhcp"@], true)),
        run(capture("systemctl"@, seq!["daemon-reload"@], true)),
        run(capture("systemctl"@, seq!["stop"@, "nextdhcp"@], true)),
        run(capture("systemctl"@, seq!["start"@, "nextdhcp"@], true)),
    ]
}

/// Gives up with `MissingHostTool` where the server is missing; else
/// writes its configuration and its unit file and starts it afresh.
pub open spec fn setup_nextdhcp_script(nextdhcp_service: Seq<char>) -> Seq<BlockView> {
    seq![
        provided(
            fails(capture("which"@, seq!["nextdhcp"@], false)),
            seq![StepView::Abort { error: about(FailureKind::MissingHostTool, "NextDHCP"@) }],
        ),
        always(
            seq![
                run(
                    capture(
                        "sh"@,
                        seq!["-c"@, "echo '"@ + NEXTDHCP_CONFIG@ + "' > "@ + NEXTDHCP_CONFIG_PATH@],
                        true,
                    ),
                ),
                run(
                    capture(
                        "sh"@,
                        seq![
                            "-c"@,
                            "echo '"@ + nextdhcp_service
                                + "' > /etc/systemd/system/nextdhcp.service"@,
                        ],
                        true,
                    ),
                ),
            ],
        ),
        always(restart_nextdhcp_steps()),
    ]
}

/// The question whether the server is installed.
pub fn nextdhcp_is_installed() -> (r: Condition)
    ensures
        r@ == nextdhcp_installed(),
{
    Condition::succeeds(HostCommand::capture("which", argv1("nextdhcp"), false))
}

pub fn restart_nextdhcp() -> (r: Vec<Step>)
    ensures
        r.deep_view() == restart_nextdhcp_steps(),
{
    steps4(
        Step::capture("systemctl", argv2("enable", "nextdhcp"), true),
        Step::capture("systemctl", argv1("daemon-reload"), true),
        Step::capture("systemctl", argv2("stop", "nextdhcp"), true),
        Step::capture("systemctl", argv2("start", "nextdhcp"), true),
    )
}

pub fn setup_nextdhcp(nextdhcp_service: &str) -> (r: Vec<Block>)
    ensures
        r.deep_view() == setup_nextdhcp_script(nextdhcp_service@),
{
    let mut script = script0();
    push_block(
        &mut script,
        Block::provided(
            Condition::fails(HostCommand::capture("which", argv1("nextdhcp"), false)),
            steps1(
                Step::Abort { error: Failure::about(FailureKind::MissingHostTool, "NextDHCP") },
            ),
        ),
    );
    push_block(
        &mut script,
        Block::always(
            steps2(
                Step::capture(
                    "sh",
                    argv2(
                        "-c",
                        join4("echo '", NEXTDHCP_CONFIG, "' > ", NEXTDHCP_CONFIG_PATH).as_str(),
                    ),
                    true,
                ),
                Step::capture(
                    "sh",
                    argv2(
                        "-c",
                        join3(
                            "echo '",
                            nextdhcp_service,
                            "' > /etc/systemd/system/nextdhcp.service",
                        ).as_str(),
                    ),
                    true,
                ),
            ),
        ),
    );
    push_block(&mut script, Block::always(restart_nextdhcp()));
    script
}

} // verus!
