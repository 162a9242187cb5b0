//! The DNS plane: CoreDNS answers for the guests' zone from etcd, where
//! every guest is entered once its address is known.

use vstd::prelude::*;
use vstd::string::*;
use crate::argv::{argv1, argv2, argv4};
use crate::command::{capture, HostCommand};
use crate::config::{EtcdConfig, EtcdConfigView};
use crate::error::{about, lifted, Failure, FailureKind, FailureView};
use crate::script::{
    always, fails, provided, push_block, run, script0, steps1, steps2, steps3, succeeds, Block,
    BlockView, Condition, ConditionView, Step, StepView,
};
use crate::text::{join, join2, join3, joined, nth_word, word};
use crate::vm::{name_in_socket, vm_name};

verus! {

pub const COREDNS_CONFIG_PATH: &'static str = "/etc/coredns/Corefile";

/// CoreDNS is on the path.
pub open spec fn coredns_installed() -> ConditionView {
    succeeds(capture("which"@, seq!["coredns"@], false))
}

/// etcd is in its place.
pub open spec fn etcd_installed() -> ConditionView {
    succeeds(capture("ls"@, seq!["/usr/bin/etcd"@], false))
}

/// Enables CoreDNS and starts it afresh.
pub open spec fn restart_coredns_steps() -> Seq<StepView> {
    seq![
        run(capture("systemctl"@, seq!["enable"@, "coredns"@], true)),
        run(capture("systemctl"@, seq!["daemon-reload"@], true)),
        run(capture("systemctl"@, seq!["restart"@, "coredns"@], true)),
    ]
}

/// Gives up with `MissingHostTool` where CoreDNS is missing; installs
/// etcd where it is missing; writes the Corefile and the unit file; and
/// starts CoreDNS afresh.
pub open spec fn setup_coredns_script(corefile: Seq<char>, coredns_service: Seq<char>) -> Seq<
    BlockView,
> {
    seq![
        provided(
            fails(capture("which"@, seq!["coredns"@], false)),
            seq![StepView::Abort { error: about(FailureKind::MissingHostTool, "CoreDNS"@) }],
        ),
        provided(
            fails(capture("ls"@, seq!["/usr/bin/etcd"@], false)),
            seq![
                run(
                    capture(
                        "apt-get"@,
                        seq!["install"@, "-y"@, "etcd-server"@, "etcd-client"@],
                        true,
                    ),
                ),
            ],
        ),
        always(
            seq![
                run(
                    capture(
                        "sh"@,
                        seq!["-c"@, "echo '"@ + corefile + "' > "@ + COREDNS_CONFIG_PATH@],
                        true,
                    ),
                ),
                run(
                    capture(
                        "sh"@,
                        seq![
                            "-c"@,
                            "echo '"@ + coredns_service
                                + "' > /etc/systemd/system/coredns.service"@,
                        ],
                        true,
                    ),
                ),
            ],
        ),
        always(restart_coredns_steps()),
    ]
}

/// One option, where its value is given.
pub open spec fn option_arg(flag: Seq<char>, value: Option<Seq<char>>) -> Seq<Seq<char>> {
    match value {
        Some(v) => seq![flag + v],
        None => Seq::empty(),
    }
}

/// How `etcdctl` is told to reach etcd: endpoints (comma-joined), user,
/// password, CA certificate and certificate, each where it is given.
pub open spec fn etcd_args(etcd: Option<EtcdConfigView>) -> Seq<Seq<char>> {
    match etcd {
        None => Seq::empty(),
        Some(e) => option_arg(
            "--endpoints="@,
            match e.endpoints {
                Some(list) => Some(joined(list, ","@)),
                None => None,
            },
        ) + option_arg("--user="@, e.user) + option_arg("--password="@, e.password) + option_arg(
            "--cacert="@,
            e.cacert,
        ) + option_arg("--cert="@, e.cert),
    }
}

/// Enters a guest into the zone: its address is left in
/// `/tmp/firecracker-<name>.ip` for whoever waits for it, and put into
/// etcd under `/skydns/firecracker/<name>` as `{"host":"<ip>"}`.
pub open spec fn register_guest_script(
    name: Seq<char>,
    ip_addr: Seq<char>,
    etcd: Option<EtcdConfigView>,
) -> Seq<BlockView> {
    seq![
        always(
            seq![
                StepView::WriteFile {
                    path: "/tmp/firecracker-"@ + name + ".ip"@,
                    content: ip_addr,
                },
                run(
                    capture(
                        "etcdctl"@,
                        seq![
                            "put"@,
                            "/skydns/firecracker/"@ + name,
                            "{\"host\":\""@ + ip_addr + "\"}"@,
                        ] + etcd_args(etcd),
                        false,
                    ),
                ),
            ],
        ),
    ]
}

/// What is done about a lease event for the guest behind `api_socket`:
/// the guest is entered under the name in its socket path with the
/// event's third word as its address; an event without a third word
/// fails.
pub open spec fn registration_of(
    api_socket: Seq<char>,
    message: Seq<char>,
    etcd: Option<EtcdConfigView>,
) -> Result<Seq<BlockView>, FailureView> {
    match word(message, 2) {
        None => Err(
            about(
                FailureKind::GuestDhcpTimeout,
                "Failed to extract IP address from MQTT message"@,
            ),
        ),
        Some(ip_addr) => Ok(register_guest_script(name_in_socket(api_socket), ip_addr, etcd)),
    }
}

/// The question whether CoreDNS is installed.
pub fn coredns_is_installed() -> (r: Condition)
    ensures
        r@ == coredns_installed(),
{
    Condition::succeeds(HostCommand::capture("which", argv1("coredns"), false))
}

/// The question whether etcd is installed.
pub fn etcd_is_installed() -> (r: Condition)
    ensures
        r@ == etcd_installed(),
{
    Condition::succeeds(HostCommand::capture("ls", argv1("/usr/bin/etcd"), false))
}

pub fn restart_coredns() -> (r: Vec<Step>)
    ensures
        r.deep_view() == restart_coredns_steps(),
{
    steps3(
        Step::capture("systemctl", argv2("enable", "coredns"), true),
        Step::capture("systemctl", argv1("daemon-reload"), true),
        Step::capture("systemctl", argv2("restart", "coredns"), true),
    )
}

pub fn setup_coredns(corefile: &str, coredns_service: &str) -> (r: Vec<Block>)
    ensures
        r.deep_view() == setup_coredns_script(corefile@, coredns_service@),
{
    let mut script = script0();
    push_block(
        &mut script,
        Block::provided(
            Condition::fails(HostCommand::capture("which", argv1("coredns"), false)),
            steps1(Step::Abort { error: Failure::about(FailureKind::MissingHostTool, "CoreDNS") }),
        ),
    );
    push_block(
        &mut script,
        Block::provided(
            Condition::fails(HostCommand::capture("ls", argv1("/usr/bin/etcd"), false)),
            steps1(
                Step::capture(
                    "apt-get",
                    argv4("install", "-y", "etcd-server", "etcd-client"),
                    true,
                ),
            ),
        ),
    );
    push_block(
        &mut script,
        Block::always(
            steps2(
                Step::capture(
                    "sh",
                    argv2(
                        "-c",
                        crate::text::join4("echo '", corefile, "' > ", COREDNS_CONFIG_PATH).as_str(),
                    ),
                    true,
                ),
                Step::capture(
                    "sh",
                    argv2(
                        "-c",
                        join3(
                            "echo '",
                            coredns_service,
                            "' > /etc/systemd/system/coredns.service",
                        ).as_str(),
                    ),
                    true,
                ),
            ),
        ),
    );
    push_block(&mut script, Block::always(restart_coredns()));
    script
}

fn push_option(args: &mut Vec<String>, flag: &str, value: &Option<String>)
    ensures
        final(args).deep_view() == old(args).deep_view() + option_arg(flag@, value.deep_view()),
{
    match value {
        Some(v) => {
            args.push(join2(flag, v.as_str()));
            assert(args.deep_view() =~= old(args).deep_view() + seq![flag@ + v@]);
        },
        None => {
            assert(args.deep_view() =~= old(args).deep_view() + Seq::<Seq<char>>::empty());
        },
    }
}

fn register(name: &str, ip_addr: &str, etcd: &Option<EtcdConfig>) -> (r: Vec<Block>)
    ensures
        r.deep_view() == register_guest_script(name@, ip_addr@, etcd.deep_view()),
{
    let mut args = crate::argv::argv3(
        "put",
        join2("/skydns/firecracker/", name).as_str(),
        join3("{\"host\":\"", ip_addr, "\"}").as_str(),
    );
    let ghost head = args.deep_view();
    match etcd {
        None => {
            assert(args.deep_view() =~= head + etcd_args(etcd.deep_view()));
        },
        Some(e) => {
            let endpoints = match &e.endpoints {
                Some(list) => Some(join(list, ",")),
                None => None,
            };
            push_option(&mut args, "--endpoints=", &endpoints);
            push_option(&mut args, "--user=", &e.user);
            push_option(&mut args, "--password=", &e.password);
            push_option(&mut args, "--cacert=", &e.cacert);
            push_option(&mut args, "--cert=", &e.cert);
            assert(args.deep_view() =~= head + etcd_args(etcd.deep_view()));
        },
    }
    let mut script = script0();
    push_block(
        &mut script,
        Block::always(
            steps2(
                Step::WriteFile {
                    path: join3("/tmp/firecracker-", name, ".ip"),
                    content: String::from_str(ip_addr),
                },
                Step::capture("etcdctl", args, false),
            ),
        ),
    );
    script
}

/// What to do about the lease event `message` for the guest behind
/// `api_socket`.
pub fn register_guest(api_socket: &str, message: &str, etcd: &Option<EtcdConfig>) -> (r: Result<
    Vec<Block>,
    Failure,
>)
    ensures
        lifted(r) == registration_of(api_socket@, message@, etcd.deep_view()),
{
    match nth_word(message, 2) {
        None => Err(
            Failure::about(
                FailureKind::GuestDhcpTimeout,
                "Failed to extract IP address from MQTT message",
            ),
        ),
        Some(ip_addr) => {
            let name = vm_name(api_socket);
            Ok(register(name.as_str(), ip_addr.as_str(), etcd))
        },
    }
}

} // verus!
