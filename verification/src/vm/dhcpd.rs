//! The DHCP server (Kea, IPv4) that leases guests their addresses and
//! publishes every lease event.

use vstd::prelude::*;
use vstd::string::*;
use crate::argv::{argv1, argv2, argv3, argv4, argv5, argv7};
use crate::command::{capture, HostCommand};
use crate::script::{
    always, fails, provided, push_block, run, script0, steps1, steps3, steps4, steps9, succeeds,
    Block, BlockView, Condition, ConditionView, Step, StepView,
};
use crate::text::join4;

verus! {

pub const DHCPD_CONFIG_PATH: &'static str = "/etc/kea/kea-dhcp4.conf";

/// The server's configuration: the guests' subnet with its pool, the
/// bridge as router and resolver, leases kept in a file, and the hook
/// that publishes lease events.
pub const KEA_DHCP_CONFIG: &'static str =
    "\n{\n  \"Dhcp4\": {\n    \"valid-lifetime\": 4000,\n    \"renew-timer\": 1000,\n    \"rebind-timer\": 2000,\n    \"interfaces-config\": {\n      \"interfaces\": [ \"fcbr0\" ]\n    },\n    \"lease-database\": {\n      \"type\": \"memfile\",\n      \"lfc-interval\": 3600\n    },\n    \"subnet4\": [\n      {\n        \"subnet\": \"172.16.0.0/24\",\n        \"pools\": [ { \"pool\": \"172.16.0.2 - 172.16.0.150\" } ],\n        \"option-data\": [\n          { \"name\": \"routers\", \"data\": \"172.16.0.1\" },\n          { \"name\": \"domain-name-servers\", \"data\": \"172.16.0.1\" }\n        ]\n    }\n    ],\n    \"hooks-libraries\": [\n      {\n        \"library\": \"/usr/lib/x86_64-linux-gnu/kea/hooks/libdhcp_run_script.so\",\n        \"parameters\": {\n          \"name\": \"/usr/local/bin/kea-mqtt-hook.sh\"\n         }\n      }\n    ],\n    \"loggers\": [\n      {\n        \"name\": \"kea-dhcp4\",\n        \"severity\": \"DEBUG\",\n        \"debuglevel\": 99\n      }\n    ]\n  }\n}\n";

/// The server is on the path.
pub open spec fn kea_dhcp_installed() -> ConditionView {
    succeeds(capture("which"@, seq!["kea-dhcp4"@], false))
}

/// The `dummy0` interface keeps the bridge up for the server: it is
/// created, brought up and attached unless it is there.
pub open spec fn dummy_interface_block() -> BlockView {
    provided(
        fails(capture("ip"@, seq!["link"@, "show"@, "dummy0"@], false)),
        seq![
            run(capture("ip"@, seq!["link"@, "add"@, "dummy0"@, "type"@, "dummy"@], true)),
            run(capture("ip"@, seq!["link"@, "set"@, "dummy0"@, "up"@], true)),
            run(capture("ip"@, seq!["link"@, "set"@, "dummy0"@, "master"@, "fcbr0"@], true)),
        ],
    )
}

/// Makes sure of the dummy interface, then enables the server and
/// starts it afresh.
pub open spec fn restart_kea_dhcp_script() -> Seq<BlockView> {
    seq![
        dummy_interface_block(),
        always(
            seq![
                run(capture("systemctl"@, seq!["enable"@, "kea-dhcp4-server"@], true)),
                run(capture("systemctl"@, seq!["daemon-reload"@], true)),
                run(capture("systemctl"@, seq!["stop"@, "kea-dhcp4-server"@], true)),
                run(capture("systemctl"@, seq!["start"@, "kea-dhcp4-server"@], true)),
            ],
        ),
    ]
}

/// Installs the server where it is missing, its hook, its AppArmor
/// profile and its configuration, and starts it afresh.
pub open spec fn setup_kea_dhcp_script(kea_mqtt_hook: Seq<char>, kea_apparmor: Seq<char>) -> Seq<
    BlockView,
> {
    seq![
        provided(
            fails(capture("which"@, seq!["kea-dhcp4"@], false)),
            seq![
                run(
                    capture(
                        "apt-get"@,
                        seq![
                            "install"@,
                            "-y"@,
                            "kea-dhcp4-server"@,
                            "kea-admin"@,
                            "kea-common"@,
                            "etcd-client"@,
                            "etcd-server"@,
                        ],
                        true,
                    ),
                ),
            ],
        ),
        always(
            seq![
                StepView::WriteFile { path: "/tmp/kea-mqtt-hook.sh"@, content: kea_mqtt_hook },
                run(capture("cp"@, seq!["/tmp/kea-mqtt-hook.sh"@, "/usr/local/bin"@], true)),
                run(capture("chmod"@, seq!["a+x"@, "/usr/local/bin/kea-mqtt-hook.sh"@], true)),
                run(capture("rm"@, seq!["/tmp/kea-mqtt-hook.sh"@], false)),
                StepView::WriteFile { path: "/tmp/usr.sbin.kea-dhcp4"@, content: kea_apparmor },
                run(capture("cp"@, seq!["/tmp/usr.sbin.kea-dhcp4"@, "/etc/apparmor.d/"@], true)),
                run(capture("rm"@, seq!["/tmp/usr.sbin.kea-dhcp4"@], false)),
                run(
                    capture(
                        "apparmor_parser"@,
                        seq!["-r"@, "/etc/apparmor.d/usr.sbin.kea-dhcp4"@],
                        true,
                    ),
                ),
                run(
                    capture(
                        "sh"@,
                        seq![
                            "-c"@,
                            "echo '"@ + KEA_DHCP_CONFIG@ + "' > "@ + DHCPD_CONFIG_PATH@,
                        ],
                        true,
                    ),
                ),
            ],
        ),
    ] + restart_kea_dhcp_script()
}

/// The question whether the server is installed.
pub fn is_kea_dhcp_installed() -> (r: Condition)
    ensures
        r@ == kea_dhcp_installed(),
{
    Condition::succeeds(HostCommand::capture("which", argv1("kea-dhcp4"), false))
}

pub fn restart_kea_dhcp() -> (r: Vec<Block>)
    ensures
        r.deep_view() == restart_kea_dhcp_script(),
{
    let mut script = script0();
    push_block(
        &mut script,
        Block::provided(
            Condition::fails(HostCommand::capture("ip", argv3("link", "show", "dummy0"), false)),
            steps3(
                Step::capture("ip", argv5("link", "add", "dummy0", "type", "dummy"), true),
                Step::capture("ip", argv4("link", "set", "dummy0", "up"), true),
                Step::capture("ip", argv5("link", "set", "dummy0", "master", "fcbr0"), true),
            ),
        ),
    );
    push_block(
        &mut script,
        Block::always(
            steps4(
                Step::capture("systemctl", argv2("enable", "kea-dhcp4-server"), true),
                Step::capture("systemctl", argv1("daemon-reload"), true),
                Step::capture("systemctl", argv2("stop", "kea-dhcp4-server"), true),
                Step::capture("systemctl", argv2("start", "kea-dhcp4-server"), true),
            ),
        ),
    );
    script
}

pub fn setup_kea_dhcp(kea_mqtt_hook: &str, kea_apparmor: &str) -> (r: Vec<Block>)
    ensures
        r.deep_view() == setup_kea_dhcp_script(kea_mqtt_hook@, kea_apparmor@),
{
    let mut script = script0();
    push_block(
        &mut script,
        Block::provided(
            Condition::fails(HostCommand::capture("which", argv1("kea-dhcp4"), false)),
            steps1(
                Step::capture(
                    "apt-get",
                    argv7(
                        "install",
                        "-y",
                        "kea-dhcp4-server",
                        "kea-admin",
                        "kea-common",
                        "etcd-client",
                        "etcd-server",
                    ),
                    true,
                ),
            ),
        ),
    );
    push_block(
        &mut script,
        Block::always(
            steps9(
                Step::WriteFile {
                    path: String::from_str("/tmp/kea-mqtt-hook.sh"),
                    content: String::from_str(kea_mqtt_hook),
                },
                Step::capture("cp", argv2("/tmp/kea-mqtt-hook.sh", "/usr/local/bin"), true),
                Step::capture("chmod", argv2("a+x", "/usr/local/bin/kea-mqtt-hook.sh"), true),
                Step::capture("rm", argv1("/tmp/kea-mqtt-hook.sh"), false),
                Step::WriteFile {
                    path: String::from_str("/tmp/usr.sbin.kea-dhcp4"),
                    content: String::from_str(kea_apparmor),
                },
                Step::capture("cp", argv2("/tmp/usr.sbin.kea-dhcp4", "/etc/apparmor.d/"), true),
                Step::capture("rm", argv1("/tmp/usr.sbin.kea-dhcp4"), false),
                Step::capture(
                    "apparmor_parser",
                    argv2("-r", "/etc/apparmor.d/usr.sbin.kea-dhcp4"),
                    true,
                ),
                Step::capture(
                    "sh",
                    argv2(
                        "-c",
                        join4("echo '", KEA_DHCP_CONFIG, "' > ", DHCPD_CONFIG_PATH).as_str(),
                    ),
                    true,
                ),
            ),
        ),
    );
    crate::script::append_script(&mut script, restart_kea_dhcp());
    script
}

} // verus!
