//! Lease events: what the DHCP server publishes when a guest asks for an
//! address, and what is made of it.
//!
//! A lease event is the text `<msgtype> <hwaddr> <ip> <state>`.

use vstd::prelude::*;
use vstd::string::*;
use crate::argv::argv2;
use crate::command::{capture, HostCommand};
use crate::error::{about, Failure, FailureKind, FailureView};
use crate::script::{
    always, push_block, script0, steps1, Block, BlockView, Poll, PollView, Probe, ProbeView, Step,
    StepView,
};
use crate::text::{join2, nth_word, same, word};

verus! {

/// Where lease events are published.
pub const LEASE_TOPIC: &'static str = "/dhcp/#";

/// How long a lease event is waited for at most, in seconds; a guest that
/// has none by then fails with `GuestDhcpTimeout`.
pub const LEASE_WAIT_SECONDS: u64 = 60;

/// What a published message means to someone waiting for a lease.
#[derive(Clone, Debug, PartialEq, Eq)]
pub enum LeaseEvent {
    /// Not the kind of message that is waited for.
    Ignore,
    /// The guest was leased `ip_addr`; `reach` tests whether it answers
    /// there.  Where `reach` fails, the next message is waited for.
    Leased { ip_addr: String, reach: Vec<Block> },
    /// The message is of the kind waited for but names no address.
    Malformed { error: Failure },
}

pub enum LeaseEventView {
    Ignore,
    Leased { ip_addr: Seq<char>, reach: Seq<BlockView> },
    Malformed { error: FailureView },
}

impl View for LeaseEvent {
    type V = LeaseEventView;

    open spec fn view(&self) -> LeaseEventView {
        match *self {
            LeaseEvent::Ignore => LeaseEventView::Ignore,
            LeaseEvent::Leased { ip_addr, reach } => LeaseEventView::Leased {
                ip_addr: ip_addr@,
                reach: reach.deep_view(),
            },
            LeaseEvent::Malformed { error } => LeaseEventView::Malformed { error: error@ },
        }
    }
}

/// Pings `ip_addr` once, three times at most with half a second after
/// each miss; an address that never answers fails with
/// `GuestDhcpTimeout`.
pub open spec fn reach_script(ip_addr: Seq<char>) -> Seq<BlockView> {
    seq![
        always(
            seq![
                StepView::Await {
                    poll: PollView {
                        probe: ProbeView::Succeeds {
                            command: capture("sh"@, seq!["-c"@, "ping -c 1 "@ + ip_addr], false),
                        },
                        expect: true,
                        pause_first: false,
                        interval_ms: 500,
                        tries: Some(3u32),
                        pause_last: true,
                        on_timeout: Some(about(FailureKind::GuestDhcpTimeout, ip_addr)),
                    },
                },
            ],
        ),
    ]
}

/// The leased address in a lease event: its third word.
pub open spec fn leased_address(payload: Seq<char>) -> Option<Seq<char>> {
    word(payload, 2)
}

/// What the message `payload` means to someone waiting for messages of
/// type `msgtype`: a message whose first word is not that type is not
/// waited for.
pub open spec fn lease_event_of(msgtype: Seq<char>, payload: Seq<char>) -> LeaseEventView {
    if word(payload, 0) != Some(msgtype) {
        LeaseEventView::Ignore
    } else {
        match leased_address(payload) {
            None => LeaseEventView::Malformed {
                error: about(
                    FailureKind::GuestDhcpTimeout,
                    "Failed to extract IP address from MQTT message"@,
                ),
            },
            Some(ip_addr) => LeaseEventView::Leased { ip_addr, reach: reach_script(ip_addr) },
        }
    }
}

fn reach(ip_addr: &str) -> (r: Vec<Block>)
    ensures
        r.deep_view() == reach_script(ip_addr@),
{
    let mut script = script0();
    push_block(
        &mut script,
        Block::always(
            steps1(
                Step::Await {
                    poll: Poll {
                        probe: Probe::Succeeds {
                            command: HostCommand::capture(
                                "sh",
                                argv2("-c", join2("ping -c 1 ", ip_addr).as_str()),
                                false,
                            ),
                        },
                        expect: true,
                        pause_first: false,
                        interval_ms: 500,
                        tries: Some(3),
                        pause_last: true,
                        on_timeout: Some(Failure::about(FailureKind::GuestDhcpTimeout, ip_addr)),
                    },
                },
            ),
        ),
    );
    script
}

/// Judges one published message while waiting for a lease event of type
/// `msgtype`.
pub fn wait_for_mqtt_message(msgtype: &str, payload: &str) -> (r: LeaseEvent)
    ensures
        r@ == lease_event_of(msgtype@, payload@),
{
    let is_type = match nth_word(payload, 0) {
        Some(first) => same(first.as_str(), msgtype),
        None => false,
    };
    if !is_type {
        return LeaseEvent::Ignore;
    }
    match nth_word(payload, 2) {
        None => LeaseEvent::Malformed {
            error: Failure::about(
                FailureKind::GuestDhcpTimeout,
                "Failed to extract IP address from MQTT message",
            ),
        },
        Some(ip_addr) => {
            let script = reach(ip_addr.as_str());
            LeaseEvent::Leased { ip_addr, reach: script }
        },
    }
}

/// What someone waiting for a lease does next.
#[derive(Clone, Debug, PartialEq, Eq)]
pub enum LeaseAction {
    /// The next message is waited for.
    Wait,
    /// It is tested whether the leased address answers.
    Reach { script: Vec<Block> },
    /// The lease is taken: the guest has the address `ip_addr`.
    Take { ip_addr: String },
    /// The wait is given up.
    Fail { error: Failure },
}

pub enum LeaseActionView {
    Wait,
    Reach { script: Seq<BlockView> },
    Take { ip_addr: Seq<char> },
    Fail { error: FailureView },
}

impl View for LeaseAction {
    type V = LeaseActionView;

    open spec fn view(&self) -> LeaseActionView {
        match *self {
            LeaseAction::Wait => LeaseActionView::Wait,
            LeaseAction::Reach { script } => LeaseActionView::Reach { script: script.deep_view() },
            LeaseAction::Take { ip_addr } => LeaseActionView::Take { ip_addr: ip_addr@ },
            LeaseAction::Fail { error } => LeaseActionView::Fail { error: error@ },
        }
    }
}

/// What follows the message `payload` for someone waiting for messages of
/// type `msgtype`; `reached` says whether the leased address answered,
/// once that has been tested.  A message of another type is passed over.
/// A lease without an address ends the wait.  A leased address is tested
/// first; the lease is taken where it answered, and the next message is
/// waited for where it did not.
pub open spec fn lease_action_of(
    msgtype: Seq<char>,
    payload: Seq<char>,
    reached: Option<bool>,
) -> LeaseActionView {
    match lease_event_of(msgtype, payload) {
        LeaseEventView::Ignore => LeaseActionView::Wait,
        LeaseEventView::Malformed { error } => LeaseActionView::Fail { error },
        LeaseEventView::Leased { ip_addr, reach } => match reached {
            None => LeaseActionView::Reach { script: reach },
            Some(true) => LeaseActionView::Take { ip_addr },
            Some(false) => LeaseActionView::Wait,
        },
    }
}

/// Decides what follows one published message while waiting for a lease
/// event of type `msgtype`.
pub fn lease_action(msgtype: &str, payload: &str, reached: Option<bool>) -> (r: LeaseAction)
    ensures
        r@ == lease_action_of(msgtype@, payload@, reached),
{
    match wait_for_mqtt_message(msgtype, payload) {
        LeaseEvent::Ignore => LeaseAction::Wait,
        LeaseEvent::Malformed { error } => LeaseAction::Fail { error },
        LeaseEvent::Leased { ip_addr, reach } => match reached {
            None => LeaseAction::Reach { script: reach },
            Some(true) => LeaseAction::Take { ip_addr },
            Some(false) => LeaseAction::Wait,
        },
    }
}

} // verus!
