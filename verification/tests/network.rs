use fireup::machine::{advance, Cursor, Ending, Reply, Request};
use fireup::error::{Failure, FailureKind};
use fireup::script::{Block, Next, Phase, Source, Subflow};
use fireup::vm::network::{
    check_bridge_exists, check_tap_exists, create_new_tap, host_interface, interface_of_route,
    setup_network,
};
use fireup::vm::subflow;
use fireup::vm::types::VmOptions;
use std::collections::BTreeSet;

fn options(tap: &str, bridge: &str) -> VmOptions {
    VmOptions { tap: tap.into(), bridge: bridge.into(), api_socket: "/tmp/firecracker-a.sock".into(), ..Default::default() }
}

/// A host that knows links, forwarding and masquerading rules, and that
/// records every command that changes something.
struct Host {
    links: BTreeSet<String>,
    forwarding: bool,
    masquerade: Vec<String>,
    default_route: String,
    changes: Vec<String>,
}

impl Host {
    fn fresh() -> Host {
        Host {
            links: BTreeSet::new(),
            forwarding: false,
            masquerade: Vec::new(),
            default_route: "eth0".into(),
            changes: Vec::new(),
        }
    }

    fn exec(&mut self, program: &str, args: &[String], sudo: bool) -> Reply {
        let a: Vec<&str> = args.iter().map(|s| s.as_str()).collect();
        let ok = Reply::Done { result: Ok(String::new()) };
        let no = Reply::Done {
            result: Err(Failure::with_detail(FailureKind::ExternalCommandFailed, program, Some(1), "")),
        };
        match (program, a.as_slice()) {
            ("ip", ["link", "show", dev]) => {
                assert!(!sudo);
                if self.links.contains(*dev) { ok } else { no }
            }
            ("cat", ["/proc/sys/net/ipv4/ip_forward"]) => Reply::Done {
                result: Ok(if self.forwarding { "1\n".into() } else { "0\n".into() }),
            },
            ("iptables", ["-t", "nat", "-C", "POSTROUTING", "-o", iface, "-j", "MASQUERADE"]) => {
                if self.masquerade.iter().any(|i| i == iface) { ok } else { no }
            }
            _ => {
                assert!(sudo, "{} {:?} must be privileged", program, a);
                self.changes.push(format!("{} {}", program, a.join(" ")));
                match (program, a.as_slice()) {
                    ("ip", ["link", "add", "name", b, "type", "bridge"]) => {
                        self.links.insert(b.to_string());
                    }
                    ("ip", ["tuntap", "add", "dev", t, "mode", "tap"]) => {
                        self.links.insert(t.to_string());
                    }
                    ("sysctl", ["-w", "net.ipv4.ip_forward=1"]) => self.forwarding = true,
                    ("iptables", ["-t", "nat", "-A", "POSTROUTING", "-o", iface, "-j", "MASQUERADE"]) => {
                        self.masquerade.push(iface.to_string())
                    }
                    _ => {}
                }
                ok
            }
        }
    }

    fn run(&mut self, script: &Vec<Block>) -> Ending {
        let (mut cursor, mut request) = advance(script, Cursor::start(), &Reply::Begin);
        loop {
            let reply = match &request {
                Request::Stop { ending } => return ending.clone(),
                Request::Exec { command } => self.exec(&command.program, &command.args, command.sudo),
                other => panic!("unexpected request {:?}", other),
            };
            let next = advance(script, cursor, &reply);
            cursor = next.0;
            request = next.1;
        }
    }

    /// Carries the whole network workflow out, as a caller would.
    fn setup(&mut self, config: &VmOptions) -> Result<(), Failure> {
        let mut fetched: Vec<String> = Vec::new();
        loop {
            let phase: Phase = setup_network(config, &fetched);
            match self.run(&phase.script) {
                Ending::Completed => {}
                Ending::Halted => return Ok(()),
                Ending::Failed { error } => return Err(error),
            }
            match phase.next {
                Next::Finish => return Ok(()),
                Next::Fail { error } => return Err(error),
                Next::Fetch { source: Source::Stdout { command } } => {
                    assert_eq!(command.program, "ip");
                    assert_eq!(command.args, vec!["-j", "route", "list", "default"]);
                    assert!(!command.sudo);
                    fetched.push(format!(
                        "[{{\"dst\":\"default\",\"gateway\":\"10.0.0.1\",\"dev\":\"{}\",\"flags\":[]}}]",
                        self.default_route
                    ));
                }
                other => panic!("unexpected {:?}", other),
            }
        }
    }
}

#[test]
fn fresh_host_gets_bridge_tap_forwarding_and_nat_in_order() {
    let mut host = Host::fresh();
    host.setup(&options("tap0", "fcbr0")).unwrap();
    assert_eq!(
        host.changes,
        vec![
            "ip link add name fcbr0 type bridge",
            "ip link set fcbr0 up",
            "ip addr add 172.16.0.1/24 dev fcbr0",
            "ip tuntap add dev tap0 mode tap",
            "ip link set dev tap0 up",
            "ip link set tap0 master fcbr0",
            "sysctl -w net.ipv4.ip_forward=1",
            "iptables -t nat -A POSTROUTING -o eth0 -j MASQUERADE",
            "iptables -P FORWARD ACCEPT",
        ]
    );
}

#[test]
fn setting_the_fabric_up_again_adds_nothing() {
    let mut host = Host::fresh();
    let config = options("tap0", "fcbr0");
    host.setup(&config).unwrap();
    let links = host.links.clone();
    for _ in 0..5 {
        host.changes.clear();
        host.setup(&config).unwrap();
        // Each part is looked at again: the tap device is flushed, the policy is set, nothing is added.
        assert_eq!(host.changes, vec!["ip addr flush dev tap0", "iptables -P FORWARD ACCEPT"]);
        assert_eq!(host.links, links);
        assert_eq!(host.masquerade, vec!["eth0"]);
        assert!(host.forwarding);
    }
}

#[test]
fn what_is_missing_is_mended_though_tap_and_bridge_are_there() {
    let mut host = Host::fresh();
    let config = options("tap0", "fcbr0");
    host.setup(&config).unwrap();
    // Forwarding is switched off and the rule is lost behind the back of the control plane.
    host.forwarding = false;
    host.masquerade.clear();
    host.changes.clear();
    host.setup(&config).unwrap();
    assert_eq!(
        host.changes,
        vec![
            "ip addr flush dev tap0",
            "sysctl -w net.ipv4.ip_forward=1",
            "iptables -t nat -A POSTROUTING -o eth0 -j MASQUERADE",
            "iptables -P FORWARD ACCEPT",
        ]
    );
    assert!(host.forwarding);
    assert_eq!(host.masquerade, vec!["eth0"]);
}

#[test]
fn second_tap_on_an_existing_bridge_adds_only_the_tap() {
    let mut host = Host::fresh();
    host.setup(&options("tap0", "fcbr0")).unwrap();
    host.changes.clear();
    host.setup(&options("tap1", "fcbr0")).unwrap();
    assert_eq!(
        host.changes,
        vec![
            "ip tuntap add dev tap1 mode tap",
            "ip link set dev tap1 up",
            "ip link set tap1 master fcbr0",
            "iptables -P FORWARD ACCEPT",
        ]
    );
    assert_eq!(host.masquerade, vec!["eth0"]);
}

#[test]
fn existing_tap_without_bridge_is_flushed_and_the_bridge_created() {
    let mut host = Host::fresh();
    host.links.insert("tap0".into());
    host.forwarding = true;
    host.masquerade.push("wlan0".into());
    host.default_route = "wlan0".into();
    host.setup(&options("tap0", "br9")).unwrap();
    assert_eq!(
        host.changes,
        vec![
            "ip addr flush dev tap0",
            "ip link add name br9 type bridge",
            "ip link set br9 up",
            "ip addr add 172.16.0.1/24 dev br9",
            "iptables -P FORWARD ACCEPT",
        ]
    );
    assert_eq!(host.masquerade, vec!["wlan0"]);
}

#[test]
fn route_listing_that_names_no_device_fails() {
    let config = options("tap0", "fcbr0");
    for (routes, detail) in [
        ("[]", "Failed to get host interface"),
        ("[{\"dst\":\"default\"}]", "Failed to get host interface"),
        ("[{\"dev\":7}]", "Failed to get host interface"),
        ("not json", "Failed to parse route JSON"),
        ("", "Failed to parse route JSON"),
    ] {
        let phase = setup_network(&config, &vec![routes.to_string()]);
        assert!(phase.script.is_empty());
        match phase.next {
            Next::Fail { error } => {
                assert_eq!(error.kind, FailureKind::ConfigInvalid);
                assert_eq!(error.subject, detail);
            }
            other => panic!("unexpected {:?}", other),
        }
    }
    assert_eq!(host_interface("[{\"dev\":\"enp3s0\"},{\"dev\":\"other\"}]"), Ok("enp3s0".to_string()));
}

#[test]
fn values_beyond_the_first_do_not_matter() {
    let config = options("tap0", "fcbr0");
    let one = setup_network(&config, &vec!["[{\"dev\":\"eth0\"}]".to_string()]);
    let two = setup_network(&config, &vec!["[{\"dev\":\"eth0\"}]".to_string(), "x".to_string()]);
    assert_eq!(one, two);
    assert_eq!(subflow(Subflow::Network, &config, &vec![]), setup_network(&config, &vec![]));
}

#[test]
fn link_checks_and_tap_creation_name_the_configured_devices() {
    let config = options("tap7", "br1");
    match check_tap_exists(&config).probe {
        fireup::script::Probe::Succeeds { command } => {
            assert_eq!(command.args, vec!["link", "show", "tap7"]);
            assert!(!command.sudo);
        }
        other => panic!("unexpected {:?}", other),
    }
    assert!(check_tap_exists(&config).expect);
    match check_bridge_exists(&config).probe {
        fireup::script::Probe::Succeeds { command } => assert_eq!(command.args, vec!["link", "show", "br1"]),
        other => panic!("unexpected {:?}", other),
    }
    let steps = create_new_tap(&config);
    assert_eq!(steps.len(), 3);
    match &steps[2] {
        fireup::script::Step::Run { command } => {
            assert_eq!(command.program, "ip");
            assert_eq!(command.args, vec!["link", "set", "tap7", "master", "br1"]);
            assert!(command.sudo);
        }
        other => panic!("unexpected {:?}", other),
    }
}

#[test]
fn a_route_without_a_device_names_no_interface() {
    assert_eq!(interface_of_route(Some("eth0".to_string())), Ok("eth0".to_string()));
    assert_eq!(interface_of_route(Some(String::new())), Ok(String::new()));
    let err = interface_of_route(None).unwrap_err();
    assert_eq!(err.kind, FailureKind::ConfigInvalid);
    assert_eq!(err.subject, "Failed to get host interface");
}
