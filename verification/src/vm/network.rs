//! The host network fabric: bridge, tap device, forwarding and NAT.
//!
//! Every part is set up only where it is missing, so that setting the
//! fabric up again changes nothing.

use vstd::prelude::*;
use vstd::string::*;
use crate::argv::{argv1, argv2, argv3, argv4, argv5, argv6, argv8};
use crate::command::{capture, CommandView, HostCommand};
use crate::error::{about, Failure, FailureKind, FailureView};
use crate::outside::{json_accepts, json_member, json_text_at};
use crate::script::{
    always, failing, fails, fetching, last, provided, push_block, run, script0, stdout_of, steps1,
    steps3, succeeds, Block, BlockView, Condition, ConditionView, Phase, PhaseView, Probe,
    ProbeView, Source, Step, StepView,
};
use crate::text::join2;
use crate::vm::constants::{BRIDGE_IP, MASK_SHORT};
use crate::vm::types::{VmOptions, VmOptionsView};

verus! {

/// Shows a link; succeeds exactly when the link exists.
pub open spec fn show_link(device: Seq<char>) -> CommandView {
    capture("ip"@, seq!["link"@, "show"@, device], false)
}

/// Tests for the masquerading rule on `host_iface`.
pub open spec fn nat_rule_check(host_iface: Seq<char>) -> CommandView {
    capture(
        "iptables"@,
        seq![
            "-t"@,
            "nat"@,
            "-C"@,
            "POSTROUTING"@,
            "-o"@,
            host_iface,
            "-j"@,
            "MASQUERADE"@,
        ],
        true,
    )
}

/// Appends the masquerading rule on `host_iface`.
pub open spec fn nat_rule_add(host_iface: Seq<char>) -> CommandView {
    capture(
        "iptables"@,
        seq![
            "-t"@,
            "nat"@,
            "-A"@,
            "POSTROUTING"@,
            "-o"@,
            host_iface,
            "-j"@,
            "MASQUERADE"@,
        ],
        true,
    )
}

/// IP forwarding is switched on.
pub open spec fn forwarding_on() -> ProbeView {
    ProbeView::OutputIs {
        command: capture("cat"@, seq!["/proc/sys/net/ipv4/ip_forward"@], false),
        text: "1"@,
    }
}

/// Creates the tap device, brings it up and attaches it to the bridge.
pub open spec fn create_new_tap_steps(tap: Seq<char>, bridge: Seq<char>) -> Seq<StepView> {
    seq![
        run(capture("ip"@, seq!["tuntap"@, "add"@, "dev"@, tap, "mode"@, "tap"@], true)),
        run(capture("ip"@, seq!["link"@, "set"@, "dev"@, tap, "up"@], true)),
        run(capture("ip"@, seq!["link"@, "set"@, tap, "master"@, bridge], true)),
    ]
}

/// Bridge, tap device and forwarding, each looked at on its own.  A tap
/// device that exists has its addresses flushed; the bridge is created
/// with its address where it is missing, the tap device where it is
/// missing, and forwarding is switched on unless it is on.
pub open spec fn links_script(tap: Seq<char>, bridge: Seq<char>) -> Seq<BlockView> {
    seq![
        provided(
            succeeds(show_link(tap)),
            seq![run(capture("ip"@, seq!["addr"@, "flush"@, "dev"@, tap], true))],
        ),
        provided(
            fails(show_link(bridge)),
            seq![
                run(
                    capture(
                        "ip"@,
                        seq!["link"@, "add"@, "name"@, bridge, "type"@, "bridge"@],
                        true,
                    ),
                ),
                run(capture("ip"@, seq!["link"@, "set"@, bridge, "up"@], true)),
                run(
                    capture(
                        "ip"@,
                        seq!["addr"@, "add"@, BRIDGE_IP@ + MASK_SHORT@, "dev"@, bridge],
                        true,
                    ),
                ),
            ],
        ),
        provided(fails(show_link(tap)), create_new_tap_steps(tap, bridge)),
        provided(
            ConditionView { probe: forwarding_on(), expect: false },
            seq![run(capture("sysctl"@, seq!["-w"@, "net.ipv4.ip_forward=1"@], true))],
        ),
    ]
}

/// Masquerading on the interface of the default route, added unless it
/// is there, and forwarding allowed.
pub open spec fn nat_script(host_iface: Seq<char>) -> Seq<BlockView> {
    seq![
        provided(fails(nat_rule_check(host_iface)), seq![run(nat_rule_add(host_iface))]),
        always(seq![run(capture("iptables"@, seq!["-P"@, "FORWARD"@, "ACCEPT"@], true))]),
    ]
}

/// The interface of the default route, given the device that the first
/// route names, if it names one; a route without a device fails.
pub open spec fn routed_interface(dev: Option<Seq<char>>) -> Result<Seq<char>, FailureView> {
    match dev {
        Some(dev) => Ok(dev),
        None => Err(about(FailureKind::ConfigInvalid, "Failed to get host interface"@)),
    }
}

/// The interface of the default route in the output of
/// `ip -j route list default`: member `dev` of the first entry.
pub open spec fn host_interface_of(routes: Seq<char>) -> Result<Seq<char>, FailureView> {
    if !json_accepts(routes) {
        Err(about(FailureKind::ConfigInvalid, "Failed to parse route JSON"@))
    } else {
        routed_interface(json_text_at(routes, 0, "dev"@))
    }
}

/// The network fabric for one microVM, given what has been fetched so
/// far: links and forwarding first; then, with the default route known,
/// NAT on its interface.
pub open spec fn network_setup_of(config: VmOptionsView, fetched: Seq<Seq<char>>) -> PhaseView {
    if fetched.len() == 0 {
        fetching(
            links_script(config.tap, config.bridge),
            stdout_of("ip"@, seq!["-j"@, "route"@, "list"@, "default"@], false),
        )
    } else {
        match host_interface_of(fetched[0]) {
            Ok(host_iface) => last(nat_script(host_iface)),
            Err(e) => failing(e),
        }
    }
}

fn link_shown(device: &str) -> (r: HostCommand)
    ensures
        r@ == show_link(device@),
{
    HostCommand::capture("ip", argv3("link", "show", device), false)
}

/// The question whether the tap device exists.
pub fn check_tap_exists(config: &VmOptions) -> (r: Condition)
    ensures
        r@ == succeeds(show_link(config@.tap)),
{
    Condition::succeeds(link_shown(config.tap.as_str()))
}

/// The question whether the bridge exists.
pub fn check_bridge_exists(config: &VmOptions) -> (r: Condition)
    ensures
        r@ == succeeds(show_link(config@.bridge)),
{
    Condition::succeeds(link_shown(config.bridge.as_str()))
}

/// Creates the tap device, brings it up and attaches it to the bridge.
pub fn create_new_tap(config: &VmOptions) -> (r: Vec<Step>)
    ensures
        r.deep_view() == create_new_tap_steps(config@.tap, config@.bridge),
{
    let tap = config.tap.as_str();
    steps3(
        Step::capture("ip", argv6("tuntap", "add", "dev", tap, "mode", "tap"), true),
        Step::capture("ip", argv5("link", "set", "dev", tap, "up"), true),
        Step::capture("ip", argv5("link", "set", tap, "master", config.bridge.as_str()), true),
    )
}

/// The interface of the default route, given the device that the first
/// route was found to name, or found not to name.
pub fn interface_of_route(dev: Option<String>) -> (r: Result<String, Failure>)
    ensures
        crate::error::lifted(r) == routed_interface(dev.deep_view()),
{
    match dev {
        Some(dev) => Ok(dev),
        None => Err(Failure::about(FailureKind::ConfigInvalid, "Failed to get host interface")),
    }
}

/// The interface of the default route.
pub fn host_interface(routes: &str) -> (r: Result<String, Failure>)
    ensures
        crate::error::lifted(r) == host_interface_of(routes@),
{
    match json_member(routes, 0, "dev") {
        Err(_) => Err(Failure::about(FailureKind::ConfigInvalid, "Failed to parse route JSON")),
        Ok(dev) => interface_of_route(dev),
    }
}

fn links(config: &VmOptions) -> (r: Vec<Block>)
    ensures
        r.deep_view() == links_script(config@.tap, config@.bridge),
{
    let tap = config.tap.as_str();
    let bridge = config.bridge.as_str();
    let mut script = script0();
    push_block(
        &mut script,
        Block::provided(
            check_tap_exists(config),
            steps1(Step::capture("ip", argv4("addr", "flush", "dev", tap), true)),
        ),
    );
    push_block(
        &mut script,
        Block::provided(
            Condition::fails(link_shown(bridge)),
            steps3(
                Step::capture("ip", argv6("link", "add", "name", bridge, "type", "bridge"), true),
                Step::capture("ip", argv4("link", "set", bridge, "up"), true),
                Step::capture(
                    "ip",
                    argv5("addr", "add", join2(BRIDGE_IP, MASK_SHORT).as_str(), "dev", bridge),
                    true,
                ),
            ),
        ),
    );
    push_block(
        &mut script,
        Block::provided(Condition::fails(link_shown(tap)), create_new_tap(config)),
    );
    push_block(
        &mut script,
        Block::provided(
            Condition {
                probe: Probe::OutputIs {
                    command: HostCommand::capture(
                        "cat",
                        argv1("/proc/sys/net/ipv4/ip_forward"),
                        false,
                    ),
                    text: String::from_str("1"),
                },
                expect: false,
            },
            steps1(Step::capture("sysctl", argv2("-w", "net.ipv4.ip_forward=1"), true)),
        ),
    );
    script
}

fn masquerade(host_iface: &str) -> (r: Vec<Block>)
    ensures
        r.deep_view() == nat_script(host_iface@),
{
    let mut script = script0();
    push_block(
        &mut script,
        Block::provided(
            Condition::fails(
                HostCommand::capture(
                    "iptables",
                    argv8("-t", "nat", "-C", "POSTROUTING", "-o", host_iface, "-j", "MASQUERADE"),
                    true,
                ),
            ),
            steps1(
                Step::capture(
                    "iptables",
                    argv8("-t", "nat", "-A", "POSTROUTING", "-o", host_iface, "-j", "MASQUERADE"),
                    true,
                ),
            ),
        ),
    );
    push_block(
        &mut script,
        Block::always(steps1(Step::capture("iptables", argv3("-P", "FORWARD", "ACCEPT"), true))),
    );
    script
}

/// Sets up the network fabric for one microVM.
///
/// Called again with every value fetched so far, it says what to do next;
/// with one value or more it is complete.
pub fn setup_network(config: &VmOptions, fetched: &Vec<String>) -> (r: Phase)
    ensures
        r@ == network_setup_of(
            config@,
            crate::prepare::downloader::first_values(fetched.deep_view(), 1),
        ),
{
    if fetched.len() == 0 {
        return Phase::fetching(
            links(config),
            Source::stdout_of("ip", argv4("-j", "route", "list", "default"), false),
        );
    }
    assert(fetched.deep_view()[0] == fetched[0]@);
    match host_interface(fetched[0].as_str()) {
        Ok(host_iface) => Phase::last(masquerade(host_iface.as_str())),
        Err(e) => Phase::failing(e),
    }
}

} // verus!
