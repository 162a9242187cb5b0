//! dnsmasq as DHCP and DNS server for the guests.

use vstd::prelude::*;
use vstd::string::*;
use crate::argv::{argv1, argv2, argv11};
use crate::command::{capture, HostCommand};
use crate::error::{about, Failure, FailureKind};
use crate::script::{
    always, fails, provided, push_block, run, script0, steps1, steps2, succeeds, Block, BlockView,
    Condition, ConditionView, Step, StepView,
};
use crate::text::{concat, glue, join4};
use crate::vm::constants::BRIDGE_IP;
use crate::vm::types::{VmOptions, VmOptionsView};
use crate::vm::{name_in_socket, vm_name};

verus! {

pub const DNSMASQ_CONFIG_PATH: &'static str = "/etc/dnsmasq.d/firecracker.conf";

/// The server is on the path.
pub open spec fn dnsmasq_installed() -> ConditionView {
    succeeds(capture("which"@, seq!["dnsmasq"@], false))
}

/// The server's configuration for one guest: it serves the bridge, hands
/// out the bridge as router and resolver, leases from the guests' range,
/// and knows the guest's MAC address by the guest's name.
pub open spec fn dnsmasq_config(config: VmOptionsView) -> Seq<char> {
    concat(
        seq![
            "\ninterface="@,
            config.bridge,
            "\nbind-interfaces\ndomain=firecracker.local\ndhcp-option=option:router,"@,
            BRIDGE_IP@,
            "\ndhcp-option=option:dns-server,"@,
            BRIDGE_IP@,
            "\ndhcp-range=172.16.0.2,172.16.0.150,12h\ndhcp-host="@,
            config.mac_address,
            ","@,
            name_in_socket(config.api_socket),
            "\nserver=8.8.8.8\nserver=8.8.4.4\nserver=1.1.1.1\n"@,
        ],
    )
}

/// Enables the server and starts it afresh.
pub open spec fn restart_dnsmasq_steps() -> Seq<StepView> {
    seq![
        run(capture("systemctl"@, seq!["enable"@, "dnsmasq"@], true)),
        run(capture("systemctl"@, seq!["restart"@, "dnsmasq"@], true)),
    ]
}

/// Gives up with `MissingHostTool` where the server is missing; else
/// writes its configuration for the guest and starts it afresh.
pub open spec fn setup_dnsmasq_script(config: VmOptionsView) -> Seq<BlockView> {
    seq![
        provided(
            fails(capture("which"@, seq!["dnsmasq"@], false)),
            seq![StepView::Abort { error: about(FailureKind::MissingHostTool, "DNSMasq"@) }],
        ),
        always(
            seq![
                run(capture("mkdir"@, seq!["-p"@, "/etc/dnsmasq.d"@], true)),
                run(
                    capture(
                        "sh"@,
                        seq![
                            "-c"@,
                            "echo '"@ + dnsmasq_config(config) + "' > "@ + DNSMASQ_CONFIG_PATH@,
                        ],
                        true,
                    ),
                ),
            ],
        ),
        always(restart_dnsmasq_steps()),
    ]
}

/// The question whether the server is installed.
pub fn dnsmasq_is_installed() -> (r: Condition)
    ensures
        r@ == dnsmasq_installed(),
{
    Condition::succeeds(HostCommand::capture("which", argv1("dnsmasq"), false))
}

pub fn restart_dnsmasq() -> (r: Vec<Step>)
    ensures
        r.deep_view() == restart_dnsmasq_steps(),
{
    steps2(
        Step::capture("systemctl", argv2("enable", "dnsmasq"), true),
        Step::capture("systemctl", argv2("restart", "dnsmasq"), true),
    )
}

pub fn setup_dnsmasq(config: &VmOptions) -> (r: Vec<Block>)
    ensures
        r.deep_view() == setup_dnsmasq_script(config@),
{
    let name = vm_name(config.api_socket.as_str());
    let text = glue(
        &argv11(
            "\ninterface=",
            config.bridge.as_str(),
            "\nbind-interfaces\ndomain=firecracker.local\ndhcp-option=option:router,",
            BRIDGE_IP,
            "\ndhcp-option=option:dns-server,",
            BRIDGE_IP,
            "\ndhcp-range=172.16.0.2,172.16.0.150,12h\ndhcp-host=",
            config.mac_address.as_str(),
            ",",
            name.as_str(),
            "\nserver=8.8.8.8\nserver=8.8.4.4\nserver=1.1.1.1\n",
        ),
    );
    let mut script = script0();
    push_block(
        &mut script,
        Block::provided(
            Condition::fails(HostCommand::capture("which", argv1("dnsmasq"), false)),
            steps1(Step::Abort { error: Failure::about(FailureKind::MissingHostTool, "DNSMasq") }),
        ),
    );
    push_block(
        &mut script,
        Block::always(
            steps2(
                Step::capture("mkdir", argv2("-p", "/etc/dnsmasq.d"), true),
                Step::capture(
                    "sh",
                    argv2(
                        "-c",
                        join4("echo '", text.as_str(), "' > ", DNSMASQ_CONFIG_PATH).as_str(),
                    ),
                    true,
                ),
            ),
        ),
    );
    push_block(&mut script, Block::always(restart_dnsmasq()));
    script
}

} // verus!
