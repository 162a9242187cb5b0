//! Reconciling the guest once it is up: its resolver is pointed at the
//! bridge over SSH.

use vstd::prelude::*;
use vstd::string::*;
use crate::argv::argv8;
use crate::command::{capture, HostCommand};
use crate::script::{
    always, push_block, script0, steps1, Block, BlockView, Poll, PollView, Probe, ProbeView, Step,
    StepView,
};
use crate::text::join2;
use crate::vm::constants::BRIDGE_IP;

verus! {

/// What is run in the guest: on NixOS a command that changes nothing,
/// elsewhere the one that points the resolver at the bridge.
pub open spec fn guest_command(is_nixos: bool) -> Seq<char> {
    if is_nixos {
        "uname -a"@
    } else {
        "echo 'nameserver "@ + BRIDGE_IP@ + "' > /etc/resolv.conf"@
    }
}

/// Runs the guest command over SSH, trying again every 100 ms until it
/// succeeds, 501 times at most; a guest that never answers is left as it
/// is and the workflow goes on.
pub open spec fn configure_guest_network_script(
    key_path: Seq<char>,
    guest_ip: Seq<char>,
    is_nixos: bool,
) -> Seq<BlockView> {
    seq![
        always(
            seq![
                StepView::Await {
                    poll: PollView {
                        probe: ProbeView::Succeeds {
                            command: capture(
                                "ssh"@,
                                seq![
                                    "-i"@,
                                    key_path,
                                    "-o"@,
                                    "StrictHostKeyChecking=no"@,
                                    "-o"@,
                                    "UserKnownHostsFile=/dev/null"@,
                                    "root@"@ + guest_ip,
                                    guest_command(is_nixos),
                                ],
                                false,
                            ),
                        },
                        expect: true,
                        pause_first: false,
                        interval_ms: 100,
                        tries: Some(501u32),
                        pause_last: false,
                        on_timeout: None,
                    },
                },
            ],
        ),
    ]
}

pub fn configure_guest_network(key_path: &str, guest_ip: &str, is_nixos: bool) -> (r: Vec<Block>)
    ensures
        r.deep_view() == configure_guest_network_script(key_path@, guest_ip@, is_nixos),
{
    let command = if is_nixos {
        String::from_str("uname -a")
    } else {
        crate::text::join3("echo 'nameserver ", BRIDGE_IP, "' > /etc/resolv.conf")
    };
    let mut script = script0();
    push_block(
        &mut script,
        Block::always(
            steps1(
                Step::Await {
                    poll: Poll {
                        probe: Probe::Succeeds {
                            command: HostCommand::capture(
                                "ssh",
                                argv8(
                                    "-i",
                                    key_path,
                                    "-o",
                                    "StrictHostKeyChecking=no",
                                    "-o",
                                    "UserKnownHostsFile=/dev/null",
                                    join2("root@", guest_ip).as_str(),
                                    command.as_str(),
                                ),
                                false,
                            ),
                        },
                        expect: true,
                        pause_first: false,
                        interval_ms: 100,
                        tries: Some(501),
                        pause_last: false,
                        on_timeout: None,
                    },
                },
            ),
        ),
    );
    script
}

} // verus!
