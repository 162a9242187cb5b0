//! What the network fabric does to a host, and why doing it again changes
//! nothing.
//!
//! The fabric is described once more here, not as commands but by what
//! the commands mean: which links exist, which addresses they carry,
//! whether the host forwards and masquerades.  The script that
//! `setup_network` hands out is this description written as commands,
//! and the machine that walks the script against a host leaves the host
//! as the description says.

use vstd::prelude::*;
use vstd::string::*;
use crate::command::{capture};
use crate::error::{about, FailureKind, FailureView};
use crate::machine::{
    advanced, branch, enter_block, enter_step, probe_request, probe_verdict, Cursor, EndingView,
    Place, ReplyView, RequestView, VerdictView,
};
use crate::text::{drop_spaces, is_space, skip_spaces, trimmed};
use crate::script::{run, BlockView, ConditionView, ProbeView, StepView};
use crate::vm::constants::{BRIDGE_IP, MASK_SHORT};
use crate::vm::network::{
    forwarding_on, links_script, nat_rule_add, nat_rule_check, nat_script, show_link,
};

verus! {

/// The part of a host that the fabric is about.
pub struct Host {
    /// The links that exist.
    pub links: Set<Seq<char>>,
    /// The links that are up.
    pub up: Set<Seq<char>>,
    /// The addresses that links carry: device and address.
    pub addresses: Set<(Seq<char>, Seq<char>)>,
    /// Which bridge a link is attached to.
    pub masters: Map<Seq<char>, Seq<char>>,
    /// The host forwards packets.
    pub forwarding: bool,
    /// How many masquerading rules there are for each outgoing interface.
    pub masquerade: Map<Seq<char>, nat>,
    /// Forwarded packets are accepted unless a rule says otherwise.
    pub forward_accept: bool,
    /// The interface of the default route.
    pub default_route: Seq<char>,
}

/// A question about the host.
pub enum Question {
    LinkExists { device: Seq<char> },
    Forwarding,
    Masquerades { host_iface: Seq<char> },
}

/// A change to the host.
pub enum Change {
    FlushAddresses { device: Seq<char> },
    AddBridge { bridge: Seq<char> },
    BringUp { device: Seq<char> },
    BringTapUp { tap: Seq<char> },
    AddAddress { device: Seq<char>, address: Seq<char> },
    AddTap { tap: Seq<char> },
    Attach { tap: Seq<char>, bridge: Seq<char> },
    EnableForwarding,
    Masquerade { host_iface: Seq<char> },
    AcceptForward,
    /// Nothing more is done.
    Leave,
}

/// Changes that are made when every question is answered as wanted.
pub struct Measure {
    pub wanted: Seq<(Question, bool)>,
    pub changes: Seq<Change>,
}

pub open spec fn answer(host: Host, question: Question) -> bool {
    match question {
        Question::LinkExists { device } => host.links.contains(device),
        Question::Forwarding => host.forwarding,
        Question::Masquerades { host_iface } => host.masquerade.dom().contains(host_iface)
            && host.masquerade[host_iface] > 0,
    }
}

/// How many masquerading rules there are for an interface.
pub open spec fn rules_for(host: Host, host_iface: Seq<char>) -> nat {
    if host.masquerade.dom().contains(host_iface) {
        host.masquerade[host_iface]
    } else {
        0
    }
}

pub open spec fn changed(host: Host, change: Change) -> Host {
    match change {
        Change::FlushAddresses { device } => flushed(host, device),
        Change::AddBridge { bridge } => Host { links: host.links.insert(bridge), ..host },
        Change::BringUp { device } => Host { up: host.up.insert(device), ..host },
        Change::BringTapUp { tap } => Host { up: host.up.insert(tap), ..host },
        Change::AddAddress { device, address } => Host {
            addresses: host.addresses.insert((device, address)),
            ..host
        },
        Change::AddTap { tap } => Host { links: host.links.insert(tap), ..host },
        Change::Attach { tap, bridge } => Host { masters: host.masters.insert(tap, bridge), ..host },
        Change::EnableForwarding => Host { forwarding: true, ..host },
        Change::Masquerade { host_iface } => Host {
            masquerade: host.masquerade.insert(host_iface, rules_for(host, host_iface) + 1),
            ..host
        },
        Change::AcceptForward => Host { forward_accept: true, ..host },
        Change::Leave => host,
    }
}

/// Every question from `from` on is answered as wanted.
pub open spec fn all_as_wanted(host: Host, wanted: Seq<(Question, bool)>, from: int) -> bool
    decreases wanted.len() - from,
{
    if from < 0 || from >= wanted.len() {
        true
    } else {
        answer(host, wanted[from].0) == wanted[from].1 && all_as_wanted(host, wanted, from + 1)
    }
}

/// The host after the changes from `from` on, and whether one of them
/// was to leave.
pub open spec fn after_changes(host: Host, changes: Seq<Change>, from: int) -> (Host, bool)
    decreases changes.len() - from,
{
    if from < 0 || from >= changes.len() {
        (host, false)
    } else if changes[from] is Leave {
        (host, true)
    } else {
        after_changes(changed(host, changes[from]), changes, from + 1)
    }
}

/// The host after the measures from `from` on, and whether they were
/// left early.
pub open spec fn after_measures(host: Host, measures: Seq<Measure>, from: int) -> (Host, bool)
    decreases measures.len() - from,
{
    if from < 0 || from >= measures.len() {
        (host, false)
    } else if all_as_wanted(host, measures[from].wanted, 0) {
        let (next, left) = after_changes(host, measures[from].changes, 0);
        if left {
            (next, true)
        } else {
            after_measures(next, measures, from + 1)
        }
    } else {
        after_measures(host, measures, from + 1)
    }
}

/// Links and forwarding, by what they mean.
pub open spec fn links_measures(tap: Seq<char>, bridge: Seq<char>) -> Seq<Measure> {
    seq![
        Measure {
            wanted: seq![(Question::LinkExists { device: tap }, true)],
            changes: seq![Change::FlushAddresses { device: tap }],
        },
        Measure {
            wanted: seq![(Question::LinkExists { device: bridge }, false)],
            changes: seq![
                Change::AddBridge { bridge },
                Change::BringUp { device: bridge },
                Change::AddAddress { device: bridge, address: BRIDGE_IP@ + MASK_SHORT@ },
            ],
        },
        Measure {
            wanted: seq![(Question::LinkExists { device: tap }, false)],
            changes: seq![
                Change::AddTap { tap },
                Change::BringTapUp { tap },
                Change::Attach { tap, bridge },
            ],
        },
        Measure {
            wanted: seq![(Question::Forwarding, false)],
            changes: seq![Change::EnableForwarding],
        },
    ]
}

/// NAT, by what it means.
pub open spec fn nat_measures(host_iface: Seq<char>) -> Seq<Measure> {
    seq![
        Measure {
            wanted: seq![(Question::Masquerades { host_iface }, false)],
            changes: seq![Change::Masquerade { host_iface }],
        },
        Measure { wanted: Seq::empty(), changes: seq![Change::AcceptForward] },
    ]
}

/// A question as the probe that asks it.
pub open spec fn asked(question: Question) -> ProbeView {
    match question {
        Question::LinkExists { device } => ProbeView::Succeeds { command: show_link(device) },
        Question::Forwarding => forwarding_on(),
        Question::Masquerades { host_iface } => ProbeView::Succeeds {
            command: nat_rule_check(host_iface),
        },
    }
}

/// A change as the step that makes it.
pub open spec fn made(change: Change) -> StepView {
    match change {
        Change::FlushAddresses { device } => run(
            capture("ip"@, seq!["addr"@, "flush"@, "dev"@, device], true),
        ),
        Change::AddBridge { bridge } => run(
            capture("ip"@, seq!["link"@, "add"@, "name"@, bridge, "type"@, "bridge"@], true),
        ),
        Change::BringUp { device } => run(
            capture("ip"@, seq!["link"@, "set"@, device, "up"@], true),
        ),
        Change::BringTapUp { tap } => run(
            capture("ip"@, seq!["link"@, "set"@, "dev"@, tap, "up"@], true),
        ),
        Change::AddAddress { device, address } => run(
            capture("ip"@, seq!["addr"@, "add"@, address, "dev"@, device], true),
        ),
        Change::AddTap { tap } => run(
            capture("ip"@, seq!["tuntap"@, "add"@, "dev"@, tap, "mode"@, "tap"@], true),
        ),
        Change::Attach { tap, bridge } => run(
            capture("ip"@, seq!["link"@, "set"@, tap, "master"@, bridge], true),
        ),
        Change::EnableForwarding => run(
            capture("sysctl"@, seq!["-w"@, "net.ipv4.ip_forward=1"@], true),
        ),
        Change::Masquerade { host_iface } => run(nat_rule_add(host_iface)),
        Change::AcceptForward => run(
            capture("iptables"@, seq!["-P"@, "FORWARD"@, "ACCEPT"@], true),
        ),
        Change::Leave => StepView::Halt,
    }
}

/// A measure as the block that takes it.
pub open spec fn taken(measure: Measure) -> BlockView {
    BlockView {
        conditions: Seq::new(
            measure.wanted.len(),
            |i: int| ConditionView { probe: asked(measure.wanted[i].0), expect: measure.wanted[i].1 },
        ),
        steps: Seq::new(measure.changes.len(), |i: int| made(measure.changes[i])),
        otherwise: Seq::empty(),
    }
}

/// Measures as the script that takes them.
pub open spec fn written(measures: Seq<Measure>) -> Seq<BlockView> {
    Seq::new(measures.len(), |i: int| taken(measures[i]))
}

/// The script that sets up links and forwarding is the fabric's measures
/// written as commands, and so is the script that sets up NAT.
pub proof fn lemma_scripts_are_the_measures(
    tap: Seq<char>,
    bridge: Seq<char>,
    host_iface: Seq<char>,
)
    ensures
        links_script(tap, bridge) == written(links_measures(tap, bridge)),
        nat_script(host_iface) == written(nat_measures(host_iface)),
{
    let links = links_measures(tap, bridge);
    let script = links_script(tap, bridge);
    assert(script.len() == 4);
    assert forall|i: int| 0 <= i < 4 implies script[i] == taken(links[i]) by {
        let m = links[i];
        let b = taken(m);
        assert(b.conditions =~= script[i].conditions);
        assert(b.steps =~= script[i].steps);
        assert(b.otherwise =~= script[i].otherwise);
    }
    assert(script =~= written(links));
    let rules = nat_measures(host_iface);
    let second = nat_script(host_iface);
    assert forall|i: int| 0 <= i < 2 implies second[i] == taken(rules[i]) by {
        let m = rules[i];
        let b = taken(m);
        assert(b.conditions =~= second[i].conditions);
        assert(b.steps =~= second[i].steps);
        assert(b.otherwise =~= second[i].otherwise);
    }
    assert(second =~= written(rules));
}

/// What `setup_network` hands out is the fabric's measures written as
/// commands: links and forwarding before the default route is known, NAT
/// on its interface after.
pub proof fn lemma_network_setup_is_the_measures(
    config: crate::vm::types::VmOptionsView,
    routes: Seq<char>,
)
    ensures
        crate::vm::network::network_setup_of(config, Seq::empty()).script == written(
            links_measures(config.tap, config.bridge),
        ),
        crate::vm::network::host_interface_of(routes) matches Ok(host_iface)
            ==> crate::vm::network::network_setup_of(config, seq![routes]).script == written(
            nat_measures(host_iface),
        ),
{
    lemma_scripts_are_the_measures(config.tap, config.bridge, Seq::empty());
    match crate::vm::network::host_interface_of(routes) {
        Ok(host_iface) => {
            lemma_scripts_are_the_measures(config.tap, config.bridge, host_iface);
        },
        Err(_) => {},
    }
}

/// The host after the fabric has been set up for a tap device and a
/// bridge: links and forwarding first, then NAT on the interface of the
/// default route.
pub open spec fn after_setup(host: Host, tap: Seq<char>, bridge: Seq<char>) -> Host {
    let linked = after_measures(host, links_measures(tap, bridge), 0).0;
    after_measures(linked, nat_measures(linked.default_route), 0).0
}

/// Only links that exist carry addresses.
pub open spec fn sound(host: Host) -> bool {
    forall|a: (Seq<char>, Seq<char>)| host.addresses.contains(a) ==> host.links.contains(a.0)
}

/// The tap device's addresses flushed.
pub open spec fn flushed(host: Host, tap: Seq<char>) -> Host {
    Host { addresses: host.addresses.filter(|a: (Seq<char>, Seq<char>)| a.0 != tap), ..host }
}

/// The bridge created, brought up and given its address.
pub open spec fn bridged(host: Host, bridge: Seq<char>) -> Host {
    Host {
        links: host.links.insert(bridge),
        up: host.up.insert(bridge),
        addresses: host.addresses.insert((bridge, BRIDGE_IP@ + MASK_SHORT@)),
        ..host
    }
}

/// The tap device created, brought up and attached to the bridge.
pub open spec fn tapped(host: Host, tap: Seq<char>, bridge: Seq<char>) -> Host {
    Host {
        links: host.links.insert(tap),
        up: host.up.insert(tap),
        masters: host.masters.insert(tap, bridge),
        ..host
    }
}

/// Links and forwarding, said outright: what the measures come to.
pub open spec fn linked(host: Host, tap: Seq<char>, bridge: Seq<char>) -> Host {
    let h1 = if host.links.contains(tap) {
        flushed(host, tap)
    } else {
        host
    };
    let h2 = if !h1.links.contains(bridge) {
        bridged(h1, bridge)
    } else {
        h1
    };
    let h3 = if !h2.links.contains(tap) {
        tapped(h2, tap, bridge)
    } else {
        h2
    };
    if !h3.forwarding {
        Host { forwarding: true, ..h3 }
    } else {
        h3
    }
}

/// NAT, said outright.
pub open spec fn masqueraded(host: Host, host_iface: Seq<char>) -> Host {
    let h1 = if rules_for(host, host_iface) == 0 {
        changed(host, Change::Masquerade { host_iface })
    } else {
        host
    };
    Host { forward_accept: true, ..h1 }
}

proof fn lemma_forwarding_measure(host: Host, tap: Seq<char>, bridge: Seq<char>)
    ensures
        after_measures(host, links_measures(tap, bridge), 3) == (
            if !host.forwarding {
                Host { forwarding: true, ..host }
            } else {
                host
            },
            false,
        ),
{
    reveal_with_fuel(after_measures, 3);
    reveal_with_fuel(after_changes, 3);
    reveal_with_fuel(all_as_wanted, 3);
}

proof fn lemma_tap_measure(host: Host, tap: Seq<char>, bridge: Seq<char>)
    ensures
        after_measures(host, links_measures(tap, bridge), 2) == after_measures(
            if !host.links.contains(tap) {
                tapped(host, tap, bridge)
            } else {
                host
            },
            links_measures(tap, bridge),
            3,
        ),
{
    reveal_with_fuel(after_measures, 2);
    reveal_with_fuel(after_changes, 5);
    reveal_with_fuel(all_as_wanted, 3);
}

proof fn lemma_bridge_measure(host: Host, tap: Seq<char>, bridge: Seq<char>)
    ensures
        after_measures(host, links_measures(tap, bridge), 1) == after_measures(
            if !host.links.contains(bridge) {
                bridged(host, bridge)
            } else {
                host
            },
            links_measures(tap, bridge),
            2,
        ),
{
    reveal_with_fuel(after_measures, 2);
    reveal_with_fuel(after_changes, 5);
    reveal_with_fuel(all_as_wanted, 3);
}

proof fn lemma_flush_measure(host: Host, tap: Seq<char>, bridge: Seq<char>)
    ensures
        after_measures(host, links_measures(tap, bridge), 0) == after_measures(
            if host.links.contains(tap) {
                flushed(host, tap)
            } else {
                host
            },
            links_measures(tap, bridge),
            1,
        ),
{
    reveal_with_fuel(after_measures, 2);
    reveal_with_fuel(after_changes, 3);
    reveal_with_fuel(all_as_wanted, 3);
}

/// The measures for links and forwarding come to what is said outright,
/// and are never left early.
pub proof fn lemma_links_outright(host: Host, tap: Seq<char>, bridge: Seq<char>)
    ensures
        after_measures(host, links_measures(tap, bridge), 0) == (linked(host, tap, bridge), false),
{
    let h1 = if host.links.contains(tap) {
        flushed(host, tap)
    } else {
        host
    };
    lemma_flush_measure(host, tap, bridge);
    let h2 = if !h1.links.contains(bridge) {
        bridged(h1, bridge)
    } else {
        h1
    };
    lemma_bridge_measure(h1, tap, bridge);
    let h3 = if !h2.links.contains(tap) {
        tapped(h2, tap, bridge)
    } else {
        h2
    };
    lemma_tap_measure(h2, tap, bridge);
    lemma_forwarding_measure(h3, tap, bridge);
}

/// The measures for NAT come to what is said outright.
pub proof fn lemma_nat_outright(host: Host, host_iface: Seq<char>)
    ensures
        after_measures(host, nat_measures(host_iface), 0).0 == masqueraded(host, host_iface),
{
    reveal_with_fuel(after_measures, 4);
    reveal_with_fuel(after_changes, 3);
    reveal_with_fuel(all_as_wanted, 3);
}

/// Setting the fabric up is idempotent: on a host where only existing
/// links carry addresses, and for a tap device that is not the bridge,
/// setting it up a second time leaves the links, the addresses, the
/// forwarding and every rule exactly as the first time left them.
/// Afterwards the host forwards, and there is one masquerading rule for
/// the default route's interface if there was at most one before.
pub proof fn lemma_setup_is_idempotent(host: Host, tap: Seq<char>, bridge: Seq<char>)
    requires
        sound(host),
        tap != bridge,
    ensures
        after_setup(after_setup(host, tap, bridge), tap, bridge) == after_setup(host, tap, bridge),
        sound(after_setup(host, tap, bridge)),
        after_setup(host, tap, bridge).links.contains(tap),
        after_setup(host, tap, bridge).links.contains(bridge),
        after_setup(host, tap, bridge).forwarding,
        after_setup(host, tap, bridge).forward_accept,
        rules_for(after_setup(host, tap, bridge), host.default_route) >= 1,
        rules_for(host, host.default_route) <= 1 ==> rules_for(
            after_setup(host, tap, bridge),
            host.default_route,
        ) == 1,
{
    lemma_links_outright(host, tap, bridge);
    let first_links = linked(host, tap, bridge);
    lemma_nat_outright(first_links, first_links.default_route);
    let first = after_setup(host, tap, bridge);
    assert(first.links.contains(tap) && first.links.contains(bridge));
    assert forall|a: (Seq<char>, Seq<char>)| first.addresses.contains(a) implies a.0 != tap
        && first.links.contains(a.0) by {
        if a.0 == tap {
            if host.links.contains(tap) {
                assert(!flushed(host, tap).addresses.contains(a));
            } else {
                assert(host.addresses.contains(a) ==> host.links.contains(a.0));
            }
        }
        if !(a.0 == bridge) {
            assert(host.addresses.contains(a));
        }
    }
    // The second time: the tap device is flushed, which removes nothing;
    // bridge and tap device are there, the host forwards, and the rule
    // is found.
    lemma_links_outright(first, tap, bridge);
    assert(flushed(first, tap).addresses =~= first.addresses);
    assert(flushed(first, tap) == first);
    assert(linked(first, tap, bridge) == first);
    lemma_nat_outright(first, first.default_route);
    assert(first.masquerade.dom().contains(first.default_route));
    assert(masqueraded(first, first.default_route) == first);
}

/// What the host says to a question that is put to it as a command.
pub open spec fn said(question: Question, yes: bool) -> ReplyView {
    match question {
        Question::Forwarding => ReplyView::Done {
            result: Ok(
                if yes {
                    "1"@
                } else {
                    "0"@
                },
            ),
        },
        _ => if yes {
            ReplyView::Done { result: Ok(Seq::empty()) }
        } else {
            ReplyView::Done { result: Err(about(FailureKind::ExternalCommandFailed, "ip"@)) }
        },
    }
}

/// What the host replies to the request that is out at `cursor` while the
/// measures' script is walked, and what the host is after it.
pub open spec fn served(host: Host, measures: Seq<Measure>, cursor: Cursor) -> (Host, ReplyView) {
    let b = cursor.block as int;
    match cursor.place {
        Place::Test { condition, second } => (
            host,
            said(
                measures[b].wanted[condition as int].0,
                answer(host, measures[b].wanted[condition as int].0),
            ),
        ),
        Place::Step { met, step } => (
            changed(host, measures[b].changes[step as int]),
            ReplyView::Done { result: Ok(Seq::empty()) },
        ),
        _ => (host, ReplyView::Begin),
    }
}

/// The script of the measures walked by the machine against the host,
/// from the request that is out at `cursor`, for `fuel` requests at most.
/// Yields the host as it is left and how the script ended, if it did.
pub open spec fn walked(
    host: Host,
    measures: Seq<Measure>,
    cursor: Cursor,
    request: RequestView,
    fuel: nat,
) -> (Host, Option<EndingView>)
    decreases fuel,
{
    match request {
        RequestView::Stop { ending } => (host, Some(ending)),
        _ => if fuel == 0 {
            (host, None)
        } else {
            let (next, reply) = served(host, measures, cursor);
            let (c, r) = advanced(written(measures), cursor, reply);
            walked(next, measures, c, r, (fuel - 1) as nat)
        },
    }
}

/// How many requests the measures from `from` on can take.
pub open spec fn requests_from(measures: Seq<Measure>, from: int) -> nat
    decreases measures.len() - from,
{
    if from < 0 || from >= measures.len() {
        0
    } else {
        measures[from].wanted.len() + measures[from].changes.len() + requests_from(
            measures,
            from + 1,
        )
    }
}

/// What walking the script comes to, said by the measures: the host
/// after them, and an ending that tells whether they were left early.
pub open spec fn outcome_from(host: Host, measures: Seq<Measure>, from: int) -> (
    Host,
    Option<EndingView>,
) {
    let (after, left) = after_measures(host, measures, from);
    (
        after,
        Some(
            if left {
                EndingView::Halted
            } else {
                EndingView::Completed
            },
        ),
    )
}

/// Measures that the machine can count.
pub open spec fn walkable(measures: Seq<Measure>) -> bool {
    &&& measures.len() < usize::MAX
    &&& forall|i: int|
        0 <= i < measures.len() ==> (#[trigger] measures[i]).wanted.len() < usize::MAX
            && measures[i].changes.len() < usize::MAX
}

/// The text of a set flag reads as set, that of a cleared one does not.
proof fn lemma_flag_texts()
    ensures
        trimmed("1"@) == "1"@,
        trimmed("0"@) != "1"@,
{
    reveal_strlit("1");
    reveal_strlit("0");
    let one = "1"@;
    let zero = "0"@;
    assert(!is_space(one[0]));
    assert(!is_space(zero[0]));
    assert(skip_spaces(one, 0) == 0);
    assert(drop_spaces(one, 0, 1) == 1);
    assert(one.subrange(0, 1) =~= one);
    assert(skip_spaces(zero, 0) == 0);
    assert(drop_spaces(zero, 0, 1) == 1);
    assert(zero.subrange(0, 1) =~= zero);
    assert(zero[0] != one[0]);
}

/// The machine reads the host's reply to a question as the answer.
proof fn lemma_reply_is_the_answer(question: Question, yes: bool)
    ensures
        probe_verdict(asked(question), false, said(question, yes)) == (VerdictView::Answer { yes }),
{
    lemma_flag_texts();
}

/// Walking on from step `s` of the measure at `b`, whose conditions are
/// met, comes to what the changes from `s` on and the measures after `b`
/// come to.
proof fn lemma_walk_steps(host: Host, measures: Seq<Measure>, b: int, s: int, fuel: nat)
    requires
        walkable(measures),
        0 <= b < measures.len(),
        0 <= s <= measures[b].changes.len(),
        fuel >= measures[b].changes.len() - s + requests_from(measures, b + 1),
    ensures
        ({
            let (c, r) = enter_step(written(measures), b, true, s);
            let (after, left) = after_changes(host, measures[b].changes, s);
            walked(host, measures, c, r, fuel) == if left {
                (after, Some(EndingView::Halted))
            } else {
                outcome_from(after, measures, b + 1)
            }
        }),
    decreases measures.len() - b, 0int, measures[b].changes.len() - s,
{
    let script = written(measures);
    let changes = measures[b].changes;
    assert(script[b] == taken(measures[b]));
    assert(branch(script[b], true).len() == changes.len());
    if s >= changes.len() {
        lemma_walk_blocks(host, measures, b + 1, fuel);
    } else {
        assert(branch(script[b], true)[s] == made(changes[s]));
        if changes[s] is Leave {
        } else {
            let (c, r) = enter_step(script, b, true, s);
            assert(c == Cursor {
                block: b as usize,
                place: Place::Step { met: true, step: s as usize },
            });
            assert(r is Exec);
            let next = changed(host, changes[s]);
            assert(served(host, measures, c) == (
                next,
                ReplyView::Done { result: Ok::<Seq<char>, FailureView>(Seq::empty()) },
            ));
            assert(advanced(script, c, served(host, measures, c).1) == enter_step(
                script,
                b,
                true,
                s + 1,
            ));
            lemma_walk_steps(next, measures, b, s + 1, (fuel - 1) as nat);
        }
    }
}

/// Walking on from condition `c` of the measure at `b` comes to what the
/// measure, its conditions examined from `c` on, and the measures after
/// it come to.
proof fn lemma_walk_conditions(host: Host, measures: Seq<Measure>, b: int, c: int, fuel: nat)
    requires
        walkable(measures),
        0 <= b < measures.len(),
        0 <= c < measures[b].wanted.len(),
        fuel >= measures[b].wanted.len() - c + measures[b].changes.len() + requests_from(
            measures,
            b + 1,
        ),
    ensures
        walked(
            host,
            measures,
            Cursor { block: b as usize, place: Place::Test { condition: c as usize, second: false } },
            probe_request(asked(measures[b].wanted[c].0), false),
            fuel,
        ) == if all_as_wanted(host, measures[b].wanted, c) {
            let (after, left) = after_changes(host, measures[b].changes, 0);
            if left {
                (after, Some(EndingView::Halted))
            } else {
                outcome_from(after, measures, b + 1)
            }
        } else {
            outcome_from(host, measures, b + 1)
        },
    decreases measures.len() - b, 1int, measures[b].wanted.len() - c,
{
    let script = written(measures);
    let wanted = measures[b].wanted;
    let question = wanted[c].0;
    let here = Cursor {
        block: b as usize,
        place: Place::Test { condition: c as usize, second: false },
    };
    assert(script[b] == taken(measures[b]));
    assert(script[b].conditions.len() == wanted.len());
    assert(script[b].conditions[c].probe == asked(question));
    assert(script[b].conditions[c].expect == wanted[c].1);
    let yes = answer(host, question);
    lemma_reply_is_the_answer(question, yes);
    assert(served(host, measures, here) == (host, said(question, yes)));
    let request = probe_request(asked(question), false);
    assert(!(request is Stop));
    let (next_cursor, next_request) = advanced(script, here, said(question, yes));
    assert(walked(host, measures, here, request, fuel) == walked(
        host,
        measures,
        next_cursor,
        next_request,
        (fuel - 1) as nat,
    ));
    if yes != wanted[c].1 {
        assert(script[b].otherwise.len() == 0);
        assert((next_cursor, next_request) == enter_block(script, b + 1));
        assert(!all_as_wanted(host, wanted, c));
        lemma_walk_blocks(host, measures, b + 1, (fuel - 1) as nat);
    } else if c + 1 < wanted.len() {
        assert(script[b].conditions[c + 1].probe == asked(wanted[c + 1].0));
        assert(next_cursor == Cursor {
            block: b as usize,
            place: Place::Test { condition: (c + 1) as usize, second: false },
        });
        assert(next_request == probe_request(asked(wanted[c + 1].0), false));
        assert(all_as_wanted(host, wanted, c) == all_as_wanted(host, wanted, c + 1));
        lemma_walk_conditions(host, measures, b, c + 1, (fuel - 1) as nat);
    } else {
        assert((next_cursor, next_request) == enter_step(script, b, true, 0));
        assert(all_as_wanted(host, wanted, c + 1));
        assert(all_as_wanted(host, wanted, c));
        lemma_walk_steps(host, measures, b, 0, (fuel - 1) as nat);
    }
}

/// Walking on from the measure at `b` comes to what the measures from
/// `b` on come to.
proof fn lemma_walk_blocks(host: Host, measures: Seq<Measure>, b: int, fuel: nat)
    requires
        walkable(measures),
        0 <= b <= measures.len(),
        fuel >= requests_from(measures, b),
    ensures
        ({
            let (c, r) = enter_block(written(measures), b);
            walked(host, measures, c, r, fuel) == outcome_from(host, measures, b)
        }),
    decreases measures.len() - b, 2int, 0int,
{
    let script = written(measures);
    if b < measures.len() {
        assert(script[b] == taken(measures[b]));
        assert(script[b].conditions.len() == measures[b].wanted.len());
        if measures[b].wanted.len() == 0 {
            lemma_walk_steps(host, measures, b, 0, fuel);
        } else {
            assert(script[b].conditions[0].probe == asked(measures[b].wanted[0].0));
            lemma_walk_conditions(host, measures, b, 0, fuel);
        }
    }
}

/// The machine does what the measures mean: walking their script against
/// the host, with every question answered as the host stands and every
/// change made to it, leaves the host as the measures say, and ends
/// early exactly when they are left early.
pub proof fn lemma_machine_takes_the_measures(host: Host, measures: Seq<Measure>, fuel: nat)
    requires
        walkable(measures),
        fuel >= requests_from(measures, 0),
    ensures
        ({
            let (c, r) = advanced(
                written(measures),
                Cursor { block: 0, place: Place::Start },
                ReplyView::Begin,
            );
            walked(host, measures, c, r, fuel) == outcome_from(host, measures, 0)
        }),
{
    lemma_walk_blocks(host, measures, 0, fuel);
}

/// The fabric as the machine sets it up: the script for links and
/// forwarding walked against the host to its end, and then the script
/// for NAT on the interface of the default route.
pub open spec fn machine_setup(host: Host, tap: Seq<char>, bridge: Seq<char>) -> Host {
    let links = links_measures(tap, bridge);
    let (c, r) = advanced(
        written(links),
        Cursor { block: 0, place: Place::Start },
        ReplyView::Begin,
    );
    let (linked, ending) = walked(host, links, c, r, 12);
    if ending == Some(EndingView::Completed) {
        let rules = nat_measures(linked.default_route);
        let (c, r) = advanced(
            written(rules),
            Cursor { block: 0, place: Place::Start },
            ReplyView::Begin,
        );
        walked(linked, rules, c, r, 3).0
    } else {
        linked
    }
}

/// The machine sets the fabric up as the measures say.
proof fn lemma_machine_setup_is_the_setup(host: Host, tap: Seq<char>, bridge: Seq<char>)
    ensures
        machine_setup(host, tap, bridge) == after_setup(host, tap, bridge),
{
    let links = links_measures(tap, bridge);
    reveal_with_fuel(requests_from, 6);
    assert(requests_from(links, 0) == 12);
    lemma_machine_takes_the_measures(host, links, 12);
    lemma_links_outright(host, tap, bridge);
    let linked = after_measures(host, links, 0).0;
    let rules = nat_measures(linked.default_route);
    assert(requests_from(rules, 0) == 3);
    lemma_machine_takes_the_measures(linked, rules, 3);
}

/// Set up by the machine a second time, the fabric is as the first time
/// left it: on a host where only existing links carry addresses, and for
/// a tap device that is not the bridge, walking the scripts again changes
/// no link, no address and no rule.
pub proof fn lemma_machine_setup_is_idempotent(host: Host, tap: Seq<char>, bridge: Seq<char>)
    requires
        sound(host),
        tap != bridge,
    ensures
        machine_setup(host, tap, bridge) == after_setup(host, tap, bridge),
        machine_setup(machine_setup(host, tap, bridge), tap, bridge) == machine_setup(
            host,
            tap,
            bridge,
        ),
{
    lemma_machine_setup_is_the_setup(host, tap, bridge);
    lemma_machine_setup_is_the_setup(after_setup(host, tap, bridge), tap, bridge);
    lemma_setup_is_idempotent(host, tap, bridge);
}

} // verus!
