use fireup::config::{EtcdConfig, TailscaleOptions};
use fireup::error::FailureKind;
use fireup::prepare::Distro;
use fireup::script::{Block, Condition, Next, Poll, Probe, Source, Step, Subflow};
use fireup::vm::coredns::{
    coredns_is_installed, etcd_is_installed, register_guest, restart_coredns, setup_coredns,
};
use fireup::vm::dhcpd::{is_kea_dhcp_installed, restart_kea_dhcp, setup_kea_dhcp, KEA_DHCP_CONFIG};
use fireup::vm::dnsmasq::{dnsmasq_is_installed, restart_dnsmasq, setup_dnsmasq};
use fireup::vm::firecracker::{
    boot_args, configure, configure_logger, put, setup_boot_source, setup_network_interface,
    setup_rootfs, setup_vcpu_and_memory, start_microvm, DEFAULT_BOOT_ARGS, NIXOS_BOOT_ARGS,
};
use fireup::vm::guest::configure_guest_network;
use fireup::vm::mosquitto::{mosquitto_is_installed, restart_mosquitto, setup_mosquitto};
use fireup::vm::mqttc::{lease_action, wait_for_mqtt_message, LeaseAction, LeaseEvent};
use fireup::vm::nextdhcp::{nextdhcp_is_installed, restart_nextdhcp, setup_nextdhcp, NEXTDHCP_CONFIG};
use fireup::vm::tailscale::{run_ssh_command, setup_tailscale};
use fireup::vm::types::VmOptions;
use fireup::vm::{fabric, fresh_name, setup, vm_name, HostAssets};

fn strings(items: &[&str]) -> Vec<String> {
    items.iter().map(|s| s.to_string()).collect()
}

fn command(c: &fireup::command::HostCommand) -> String {
    let mode = match c.mode {
        fireup::command::OutputMode::Capture => "",
        fireup::command::OutputMode::Stream => "stream ",
        fireup::command::OutputMode::Background => "background ",
    };
    format!("{}{}{} {}", mode, if c.sudo { "sudo " } else { "" }, c.program, c.args.join(" "))
}

fn step(s: &Step) -> String {
    match s {
        Step::Run { command: c } => command(c),
        Step::Try { command: c } => format!("try {}", command(c)),
        Step::WriteFile { path, content } => format!("write {} <- {}", path, content),
        Step::CreateDir { path } => format!("mkdir {}", path),
        Step::CreateFile { path } => format!("create {}", path),
        Step::RemoveFile { path } => format!("remove {}", path),
        Step::Sleep { millis } => format!("sleep {}", millis),
        Step::WatchLease { msgtype, api_socket } => format!("watch {} for {}", msgtype, api_socket),
        Step::Abort { error } => format!("abort {:?} {}", error.kind, error.subject),
        Step::Await { poll } => format!(
            "await {} every {} ms, {:?} tries",
            probe(&poll.probe),
            poll.interval_ms,
            poll.tries
        ),
        other => format!("{:?}", other),
    }
}

fn probe(p: &Probe) -> String {
    match p {
        Probe::PathExists { path } => format!("exists {}", path),
        Probe::Succeeds { command: c } => format!("succeeds({})", command(c)),
        other => format!("{:?}", other),
    }
}

fn lines(script: &Vec<Block>) -> Vec<String> {
    let mut out = Vec::new();
    for b in script {
        let indent = if b.conditions.is_empty() { "" } else { "  " };
        if !b.conditions.is_empty() {
            let all: Vec<String> = b
                .conditions
                .iter()
                .map(|c| format!("{}{}", if c.expect { "" } else { "not " }, probe(&c.probe)))
                .collect();
            out.push(format!("if {}:", all.join(" and ")));
        }
        for s in &b.steps {
            out.push(format!("{}{}", indent, step(s)));
        }
        assert!(b.otherwise.is_empty());
    }
    out
}

fn options() -> VmOptions {
    VmOptions {
        ubuntu: Some(true),
        vcpu: 2,
        memory: 1024,
        bridge: "fcbr0".into(),
        tap: "tap0".into(),
        api_socket: "/tmp/firecracker-calm-sea.sock".into(),
        mac_address: "02:AA:BB:CC:DD:EE".into(),
        ..Default::default()
    }
}

const PUT: &str = "sudo curl -s --fail -X PUT --unix-socket /tmp/firecracker-calm-sea.sock -H Content-Type: application/json --data ";

#[test]
fn boot_args_follow_architecture_distribution_and_override() {
    assert_eq!(boot_args("x86_64", false, &None), "console=ttyS0 reboot=k panic=1 pci=off ip=dhcp");
    assert_eq!(boot_args("aarch64", false, &None), "keep_bootcon console=ttyS0 reboot=k panic=1 pci=off ip=dhcp");
    assert!(boot_args("aarch64", false, &None).starts_with("keep_bootcon"));
    assert_eq!(boot_args("x86_64", true, &None), NIXOS_BOOT_ARGS);
    assert_eq!(boot_args("aarch64", true, &None), NIXOS_BOOT_ARGS);
    assert_eq!(boot_args("aarch64", false, &Some("quiet".into())), "quiet");
    assert_eq!(boot_args("x86_64", true, &Some(String::new())), "");
    assert_eq!(DEFAULT_BOOT_ARGS, "console=ttyS0 reboot=k panic=1 pci=off ip=dhcp");
    assert!(NIXOS_BOOT_ARGS.starts_with("init=/nix/store/"));
}

#[test]
fn api_requests_carry_their_json_documents() {
    let o = options();
    assert_eq!(
        step(&configure_logger("/s/logs/firecracker-calm-sea.log", &o)),
        format!("{}{} http://localhost/logger", PUT, r#"{"level":"Debug","log_path":"/s/logs/firecracker-calm-sea.log","show_level":true,"show_log_origin":true}"#)
    );
    assert_eq!(
        step(&setup_boot_source("/s/vmlinux", "x86_64", false, &o)),
        format!("{}{} http://localhost/boot-source", PUT, r#"{"boot_args":"console=ttyS0 reboot=k panic=1 pci=off ip=dhcp","kernel_image_path":"/s/vmlinux"}"#)
    );
    assert_eq!(
        step(&setup_rootfs("/s/ubuntu-rootfs.img", &o)),
        format!("{}{} http://localhost/drives/rootfs", PUT, r#"{"drive_id":"rootfs","is_read_only":false,"is_root_device":true,"path_on_host":"/s/ubuntu-rootfs.img"}"#)
    );
    assert_eq!(
        step(&setup_network_interface(&o)),
        format!("{}{} http://localhost/network-interfaces/eth0", PUT, r#"{"guest_mac":"02:AA:BB:CC:DD:EE","host_dev_name":"tap0","iface_id":"eth0"}"#)
    );
    assert_eq!(
        step(&setup_vcpu_and_memory(2, 1024, "/tmp/firecracker-calm-sea.sock")),
        format!("{}{} http://localhost/machine-config", PUT, r#"{"mem_size_mib":1024,"smt":false,"vcpu_count":2}"#)
    );
    assert_eq!(
        step(&start_microvm(&o)),
        format!("{}{} http://localhost/actions", PUT, r#"{"action_type":"InstanceStart"}"#)
    );
}

#[test]
fn json_text_is_escaped_by_the_serializer() {
    let mut o = options();
    o.vmlinux = Some("/k \"q\"\\\n".into());
    o.bootargs = Some("a=\"b\"".into());
    let s = match setup_boot_source("/ignored", "x86_64", false, &o) {
        Step::Run { command } => command.args[9].clone(),
        other => panic!("unexpected {:?}", other),
    };
    assert_eq!(s, r#"{"boot_args":"a=\"b\"","kernel_image_path":"/k \"q\"\\\n"}"#);
}

#[test]
fn configuration_sequence_is_in_order_with_its_pauses() {
    let script = configure("/log", "/kernel", "/rootfs", "aarch64", &options(), Distro::Ubuntu);
    let text = lines(&script);
    assert_eq!(text.len(), 8);
    let ends: Vec<&str> = text.iter().map(|l| l.rsplit(' ').next().unwrap()).collect();
    assert_eq!(
        ends,
        vec![
            "http://localhost/logger",
            "http://localhost/boot-source",
            "http://localhost/drives/rootfs",
            "http://localhost/network-interfaces/eth0",
            "http://localhost/machine-config",
            "15",
            "http://localhost/actions",
            "2000",
        ]
    );
    assert_eq!(text[5], "sleep 15");
    assert_eq!(text[7], "sleep 2000");
    assert!(text[1].contains(r#""boot_args":"keep_bootcon console=ttyS0"#));
    let nixos = configure("/log", "/kernel", "/rootfs", "aarch64", &options(), Distro::NixOS);
    assert!(lines(&nixos)[1].contains(r#""boot_args":"init=/nix/store/"#));
}

#[test]
fn guest_resolver_is_set_over_ssh_with_retries() {
    let script = configure_guest_network("/s/id_rsa", "calm-sea.firecracker", false);
    assert_eq!(script.len(), 1);
    match &script[0].steps[0] {
        Step::Await { poll } => {
            assert_eq!(
                poll,
                &Poll {
                    probe: Probe::Succeeds {
                        command: fireup::command::HostCommand::capture(
                            "ssh",
                            strings(&[
                                "-i",
                                "/s/id_rsa",
                                "-o",
                                "StrictHostKeyChecking=no",
                                "-o",
                                "UserKnownHostsFile=/dev/null",
                                "root@calm-sea.firecracker",
                                "echo 'nameserver 172.16.0.1' > /etc/resolv.conf",
                            ]),
                            false
                        )
                    },
                    expect: true,
                    pause_first: false,
                    interval_ms: 100,
                    tries: Some(501),
                    pause_last: false,
                    on_timeout: None,
                }
            );
        }
        other => panic!("unexpected {:?}", other),
    }
    match &configure_guest_network("k", "g", true)[0].steps[0] {
        Step::Await { poll } => match &poll.probe {
            Probe::Succeeds { command } => assert_eq!(command.args[7], "uname -a"),
            other => panic!("unexpected {:?}", other),
        },
        other => panic!("unexpected {:?}", other),
    }
}

#[test]
fn lease_events_are_filtered_by_type_and_name_the_address() {
    assert_eq!(wait_for_mqtt_message("REQUEST", "DISCOVER aa:bb 0.0.0.0 INIT"), LeaseEvent::Ignore);
    assert_eq!(wait_for_mqtt_message("REQUEST", ""), LeaseEvent::Ignore);
    match wait_for_mqtt_message("REQUEST", "REQUEST 02:aa:bb:cc:dd:ee 172.16.0.7 LEASED") {
        LeaseEvent::Leased { ip_addr, reach } => {
            assert_eq!(ip_addr, "172.16.0.7");
            assert_eq!(lines(&reach), vec!["await succeeds(sh -c ping -c 1 172.16.0.7) every 500 ms, Some(3) tries"]);
            match &reach[0].steps[0] {
                Step::Await { poll } => {
                    assert!(poll.pause_last);
                    assert!(!poll.pause_first);
                    assert_eq!(poll.on_timeout.as_ref().unwrap().kind, FailureKind::GuestDhcpTimeout);
                }
                other => panic!("unexpected {:?}", other),
            }
        }
        other => panic!("unexpected {:?}", other),
    }
    match wait_for_mqtt_message("REQUEST", "REQUEST 02:aa:bb:cc:dd:ee") {
        LeaseEvent::Malformed { error } => {
            assert_eq!(error.subject, "Failed to extract IP address from MQTT message")
        }
        other => panic!("unexpected {:?}", other),
    }
    // The type is the first field, not a prefix of the message.
    assert_eq!(wait_for_mqtt_message("REQUEST", "REQUESTS 02:aa:bb:cc:dd:ee 172.16.0.7 LEASED"), LeaseEvent::Ignore);
    assert_eq!(wait_for_mqtt_message("REQUEST", "REQUEST02:aa 172.16.0.7 x"), LeaseEvent::Ignore);
    assert_eq!(wait_for_mqtt_message("REQUEST", "REQ 02:aa 172.16.0.7 x"), LeaseEvent::Ignore);
    assert_eq!(wait_for_mqtt_message("", "a b c"), LeaseEvent::Ignore);
    assert!(matches!(
        wait_for_mqtt_message("REQUEST", "  REQUEST\t02:aa 172.16.0.9 x"),
        LeaseEvent::Leased { .. }
    ));
}

#[test]
fn a_lease_is_taken_once_its_address_answers() {
    let lease = "REQUEST 02:aa:bb:cc:dd:ee 172.16.0.7 LEASED";
    match lease_action("REQUEST", lease, None) {
        LeaseAction::Reach { script } => assert_eq!(
            lines(&script),
            vec!["await succeeds(sh -c ping -c 1 172.16.0.7) every 500 ms, Some(3) tries"]
        ),
        other => panic!("unexpected {:?}", other),
    }
    assert_eq!(lease_action("REQUEST", lease, Some(true)), LeaseAction::Take { ip_addr: "172.16.0.7".into() });
    // An address that does not answer: the next message is waited for.
    assert_eq!(lease_action("REQUEST", lease, Some(false)), LeaseAction::Wait);
    for reached in [None, Some(true), Some(false)] {
        assert_eq!(lease_action("REQUEST", "REQUESTS 02:aa 172.16.0.7 x", reached), LeaseAction::Wait);
        assert_eq!(lease_action("REQUEST", "DISCOVER 02:aa 0.0.0.0 x", reached), LeaseAction::Wait);
        match lease_action("REQUEST", "REQUEST 02:aa", reached) {
            LeaseAction::Fail { error } => assert_eq!(error.kind, FailureKind::GuestDhcpTimeout),
            other => panic!("unexpected {:?}", other),
        }
    }
}

#[test]
fn installed_checks_ask_for_the_right_program() {
    let all = [
        (coredns_is_installed(), "which coredns"),
        (etcd_is_installed(), "ls /usr/bin/etcd"),
        (is_kea_dhcp_installed(), "which kea-dhcp4"),
        (dnsmasq_is_installed(), "which dnsmasq"),
        (mosquitto_is_installed(), "which mosquitto"),
        (nextdhcp_is_installed(), "which nextdhcp"),
    ];
    for (c, text) in all {
        assert!(c.expect);
        assert_eq!(probe(&c.probe), format!("succeeds({})", text));
    }
}

#[test]
fn broker_is_installed_if_missing_and_restarted() {
    assert_eq!(
        lines(&setup_mosquitto()),
        vec![
            "if not succeeds(which mosquitto):",
            "  sudo apt-get install -y mosquitto mosquitto-clients",
            "sudo systemctl enable mosquitto",
            "sudo systemctl restart mosquitto",
        ]
    );
    assert_eq!(restart_mosquitto().len(), 2);
}

#[test]
fn coredns_needs_the_binary_installs_etcd_and_writes_its_files() {
    assert_eq!(
        lines(&setup_coredns("COREFILE", "UNIT")),
        vec![
            "if not succeeds(which coredns):",
            "  abort MissingHostTool CoreDNS",
            "if not succeeds(ls /usr/bin/etcd):",
            "  sudo apt-get install -y etcd-server etcd-client",
            "sudo sh -c echo 'COREFILE' > /etc/coredns/Corefile",
            "sudo sh -c echo 'UNIT' > /etc/systemd/system/coredns.service",
            "sudo systemctl enable coredns",
            "sudo systemctl daemon-reload",
            "sudo systemctl restart coredns",
        ]
    );
    assert_eq!(restart_coredns().len(), 3);
}

#[test]
fn guest_is_registered_in_etcd_under_its_name() {
    let script = register_guest("/tmp/firecracker-calm-sea.sock", "REQUEST 02:aa 172.16.0.7 LEASED", &None).unwrap();
    assert_eq!(
        lines(&script),
        vec![
            "write /tmp/firecracker-calm-sea.ip <- 172.16.0.7",
            "etcdctl put /skydns/firecracker/calm-sea {\"host\":\"172.16.0.7\"}",
        ]
    );
    let etcd = Some(EtcdConfig {
        endpoints: Some(strings(&["http://a:2379", "http://b:2379"])),
        user: Some("root".into()),
        password: None,
        cacert: Some("/ca.pem".into()),
        cert: None,
    });
    let script = register_guest("/tmp/firecracker-x.sock", "REQUEST m 10.0.0.2", &etcd).unwrap();
    match &script[0].steps[1] {
        Step::Run { command } => assert_eq!(
            command.args,
            strings(&[
                "put",
                "/skydns/firecracker/x",
                "{\"host\":\"10.0.0.2\"}",
                "--endpoints=http://a:2379,http://b:2379",
                "--user=root",
                "--cacert=/ca.pem",
            ])
        ),
        other => panic!("unexpected {:?}", other),
    }
    let all = Some(EtcdConfig {
        endpoints: Some(vec![]),
        user: Some("u".into()),
        password: Some("p".into()),
        cacert: Some("ca".into()),
        cert: Some("c".into()),
    });
    match &register_guest("s", "a b c", &all).unwrap()[0].steps[1] {
        Step::Run { command } => assert_eq!(
            command.args[3..],
            strings(&["--endpoints=", "--user=u", "--password=p", "--cacert=ca", "--cert=c"])
        ),
        other => panic!("unexpected {:?}", other),
    }
    assert_eq!(register_guest("s", "REQUEST m", &None).unwrap_err().kind, FailureKind::GuestDhcpTimeout);
}

#[test]
fn kea_gets_hook_profile_configuration_and_a_dummy_interface() {
    let text = lines(&setup_kea_dhcp("HOOK", "PROFILE"));
    assert_eq!(
        text[..10],
        strings(&[
            "if not succeeds(which kea-dhcp4):",
            "  sudo apt-get install -y kea-dhcp4-server kea-admin kea-common etcd-client etcd-server",
            "write /tmp/kea-mqtt-hook.sh <- HOOK",
            "sudo cp /tmp/kea-mqtt-hook.sh /usr/local/bin",
            "sudo chmod a+x /usr/local/bin/kea-mqtt-hook.sh",
            "rm /tmp/kea-mqtt-hook.sh",
            "write /tmp/usr.sbin.kea-dhcp4 <- PROFILE",
            "sudo cp /tmp/usr.sbin.kea-dhcp4 /etc/apparmor.d/",
            "rm /tmp/usr.sbin.kea-dhcp4",
            "sudo apparmor_parser -r /etc/apparmor.d/usr.sbin.kea-dhcp4",
        ])
    );
    assert_eq!(text[10], format!("sudo sh -c echo '{}' > /etc/kea/kea-dhcp4.conf", KEA_DHCP_CONFIG));
    assert_eq!(
        text[11..],
        strings(&[
            "if not succeeds(ip link show dummy0):",
            "  sudo ip link add dummy0 type dummy",
            "  sudo ip link set dummy0 up",
            "  sudo ip link set dummy0 master fcbr0",
            "sudo systemctl enable kea-dhcp4-server",
            "sudo systemctl daemon-reload",
            "sudo systemctl stop kea-dhcp4-server",
            "sudo systemctl start kea-dhcp4-server",
        ])
    );
    assert_eq!(lines(&restart_kea_dhcp()), text[11..].to_vec());
}

#[test]
fn kea_configuration_describes_the_guest_network() {
    let v: serde_json::Value = serde_json::from_str(KEA_DHCP_CONFIG).unwrap();
    let dhcp = &v["Dhcp4"];
    assert_eq!(dhcp["interfaces-config"]["interfaces"][0], "fcbr0");
    assert_eq!(dhcp["lease-database"]["type"], "memfile");
    assert_eq!(dhcp["subnet4"][0]["subnet"], "172.16.0.0/24");
    assert_eq!(dhcp["subnet4"][0]["pools"][0]["pool"], "172.16.0.2 - 172.16.0.150");
    assert_eq!(dhcp["subnet4"][0]["option-data"][0]["name"], "routers");
    assert_eq!(dhcp["subnet4"][0]["option-data"][0]["data"], "172.16.0.1");
    assert_eq!(dhcp["subnet4"][0]["option-data"][1]["name"], "domain-name-servers");
    assert_eq!(dhcp["subnet4"][0]["option-data"][1]["data"], "172.16.0.1");
    assert_eq!(dhcp["hooks-libraries"][0]["library"], "/usr/lib/x86_64-linux-gnu/kea/hooks/libdhcp_run_script.so");
    assert_eq!(dhcp["hooks-libraries"][0]["parameters"]["name"], "/usr/local/bin/kea-mqtt-hook.sh");
    assert!(KEA_DHCP_CONFIG.starts_with("\n{\n  \"Dhcp4\": {\n"));
    assert!(KEA_DHCP_CONFIG.ends_with("}\n}\n"));
}

#[test]
fn dnsmasq_configuration_names_bridge_mac_and_guest() {
    let mut o = options();
    o.bridge = "br7".into();
    let text = lines(&setup_dnsmasq(&o));
    assert_eq!(text[0], "if not succeeds(which dnsmasq):");
    assert_eq!(text[1], "  abort MissingHostTool DNSMasq");
    assert_eq!(text[2], "sudo mkdir -p /etc/dnsmasq.d");
    assert_eq!(
        text[3],
        "sudo sh -c echo '\ninterface=br7\nbind-interfaces\ndomain=firecracker.local\ndhcp-option=option:router,172.16.0.1\ndhcp-option=option:dns-server,172.16.0.1\ndhcp-range=172.16.0.2,172.16.0.150,12h\ndhcp-host=02:AA:BB:CC:DD:EE,calm-sea\nserver=8.8.8.8\nserver=8.8.4.4\nserver=1.1.1.1\n' > /etc/dnsmasq.d/firecracker.conf"
    );
    assert_eq!(text[4..], strings(&["sudo systemctl enable dnsmasq", "sudo systemctl restart dnsmasq"]));
    assert_eq!(restart_dnsmasq().len(), 2);
}

#[test]
fn nextdhcp_needs_the_binary_and_writes_its_files() {
    let text = lines(&setup_nextdhcp("UNIT"));
    assert_eq!(text[0], "if not succeeds(which nextdhcp):");
    assert_eq!(text[1], "  abort MissingHostTool NextDHCP");
    assert_eq!(text[2], format!("sudo sh -c echo '{}' > /etc/nextdhcp/Dhcpfile", NEXTDHCP_CONFIG));
    assert_eq!(text[3], "sudo sh -c echo 'UNIT' > /etc/systemd/system/nextdhcp.service");
    assert_eq!(
        text[4..],
        strings(&[
            "sudo systemctl enable nextdhcp",
            "sudo systemctl daemon-reload",
            "sudo systemctl stop nextdhcp",
            "sudo systemctl start nextdhcp",
        ])
    );
    assert!(NEXTDHCP_CONFIG.contains("topic /dhcp/hwaddr/{hwaddr}"));
    assert!(NEXTDHCP_CONFIG.contains("payload \"{msgtype} {hwaddr} {requestedip} {state}\""));
    assert!(NEXTDHCP_CONFIG.contains("range 172.16.0.2 172.16.0.150"));
    assert_eq!(restart_nextdhcp().len(), 4);
}

#[test]
fn tailscale_is_set_up_over_ssh_per_distribution() {
    let mut o = options();
    assert_eq!(setup_tailscale("vm", &o, "/k"), Ok(vec![]));
    o.tailscale = Some(TailscaleOptions { auth_key: None });
    assert_eq!(setup_tailscale("vm", &o, "/k"), Ok(vec![]));
    o.tailscale = Some(TailscaleOptions { auth_key: Some("0123456789abcdef".into()) });
    let err = setup_tailscale("vm", &o, "/k").unwrap_err();
    assert_eq!(err.kind, FailureKind::ConfigInvalid);
    assert_eq!(err.subject, "Tailscale auth key is too short");
    o.tailscale = Some(TailscaleOptions { auth_key: Some("tskey-0123456789abcdef".into()) });
    let remote = |script: Vec<Block>| -> Vec<String> {
        assert_eq!(script.len(), 1);
        script[0]
            .steps
            .iter()
            .map(|s| match s {
                Step::Run { command } => {
                    assert_eq!(command.args[..5], strings(&["-i", "/k", "-o", "StrictHostKeyChecking=no", "root@vm.firecracker"]));
                    assert_eq!(command.mode, fireup::command::OutputMode::Stream);
                    command.args[5].clone()
                }
                other => panic!("unexpected {:?}", other),
            })
            .collect()
    };
    assert_eq!(
        remote(setup_tailscale("vm", &o, "/k").unwrap()),
        strings(&[
            "rm -f /etc/security/namespace.init",
            "type tailscaled || curl -fsSL https://tailscale.com/install.sh | sh",
            "systemctl enable tailscaled && systemctl start tailscaled || true",
            "tailscale up --auth-key tskey-0123456789abcdef --hostname vm",
            "systemctl status tailscaled || true",
            "tailscale status || true",
        ])
    );
    o.ubuntu = None;
    o.alpine = Some(true);
    assert_eq!(
        remote(setup_tailscale("vm", &o, "/k").unwrap()),
        strings(&[
            "rm -f /etc/security/namespace.init",
            "apk add openrc",
            "type tailscaled || curl -fsSL https://tailscale.com/install.sh | sh",
            "tailscale up --auth-key tskey-0123456789abcdef --hostname vm",
            "rc-status",
            "tailscale status || true",
        ])
    );
    o.alpine = None;
    o.gentoo = Some(true);
    o.slackware = Some(true);
    assert_eq!(
        remote(setup_tailscale("vm", &o, "/k").unwrap()),
        strings(&[
            "rm -f /etc/security/namespace.init",
            "emerge --sync",
            "emerge net-misc/curl",
            "yes | slackpkg install nghttp2 brotli zstd libidn2 libpsl cyrus-sasl perl",
            "update-ca-certificates --fresh",
            "type tailscaled || curl -fsSL https://tailscale.com/install.sh | sh",
            "tailscale up --auth-key tskey-0123456789abcdef --hostname vm",
            "rc-status",
            "tailscale status || true",
        ])
    );
    assert_eq!(
        command(&run_ssh_command("/k", "g", "uptime")),
        "stream ssh -i /k -o StrictHostKeyChecking=no root@g uptime"
    );
}

#[test]
fn names_come_out_of_socket_paths() {
    assert_eq!(vm_name("/tmp/firecracker-calm-sea.sock"), "calm-sea");
    assert_eq!(vm_name("/var/run/x/firecracker-a.sock"), "a");
    assert_eq!(vm_name("firecracker-.sock"), "");
    assert_eq!(vm_name("/tmp/firecracker.sock"), "firecracker");
    assert_eq!(vm_name("/tmp/firecracker-firecracker-b.sock.sock"), "b");
    assert_eq!(vm_name(""), "");
    let name = fresh_name();
    assert!(name.contains('-'));
    assert!(!name.is_empty());
}

fn host_assets() -> HostAssets {
    HostAssets {
        corefile: "COREFILE".into(),
        coredns_service: "UNIT".into(),
        kea_mqtt_hook: "HOOK".into(),
        kea_apparmor: "PROFILE".into(),
    }
}

fn fetch(n: usize) -> Vec<String> {
    strings(&[
        "/s/vmlinux-6.1.141",
        "/abs/vmlinux-6.1.141",
        "/abs/ubuntu-rootfs.img",
        "/s/id_rsa",
        "/abs/id_rsa",
        "x86_64\n",
        " 172.16.0.7\n",
        "/abs/booted",
    ])[..n]
        .to_vec()
}

#[test]
fn setup_fetches_its_eight_values_in_order() {
    let o = options();
    let at = |n: usize| setup(&o, 4242, "/s", "fallback", &None, &fetch(n));
    let s0 = at(0);
    assert_eq!(lines(&s0.phase.script), vec!["mkdir /s/logs", "create /s/logs/firecracker-calm-sea.log"]);
    assert_eq!(s0.phase.next, Next::Fetch { source: Source::LastMatch { pattern: "/s/vmlinux*".into() } });
    assert_eq!(at(1).phase.next, Next::Fetch { source: Source::Canonical { path: "/s/vmlinux-6.1.141".into() } });
    assert_eq!(at(2).phase.next, Next::Fetch { source: Source::Canonical { path: "/s/ubuntu-rootfs.img".into() } });
    assert_eq!(at(3).phase.next, Next::Fetch { source: Source::LastMatch { pattern: "/s/id_rsa".into() } });
    assert_eq!(at(4).phase.next, Next::Fetch { source: Source::Canonical { path: "/s/id_rsa".into() } });
    match at(5).phase.next {
        Next::Fetch { source: Source::Stdout { command: c } } => assert_eq!(command(&c), "uname -m"),
        other => panic!("unexpected {:?}", other),
    }
    for n in 1..6 {
        assert!(at(n).phase.script.is_empty());
        assert_eq!(at(n).record, None);
    }
    let s6 = at(6);
    assert_eq!(s6.record, None);
    assert_eq!(s6.phase.next, Next::Fetch { source: Source::FileContent { path: "/tmp/firecracker-calm-sea.ip".into() } });
    let text = lines(&s6.phase.script);
    // The lease is watched for before the guest is started; nothing is done about the host's services here.
    assert_eq!(text[0], "watch REQUEST for /tmp/firecracker-calm-sea.sock");
    assert!(text.iter().all(|l| !l.contains("mosquitto") && !l.contains("coredns") && !l.contains("kea")));
    let logger = text.iter().position(|l| l.ends_with("http://localhost/logger")).unwrap();
    assert_eq!(logger, 1);
    assert!(text[logger].contains(r#""log_path":"/s/logs/firecracker-calm-sea.log""#));
    assert!(text[logger + 1].contains(r#""kernel_image_path":"/abs/vmlinux-6.1.141""#));
    assert!(text[logger + 2].contains(r#""path_on_host":"/abs/ubuntu-rootfs.img""#));
    assert_eq!(
        text[logger + 8],
        "await succeeds(ssh -i /abs/id_rsa -o StrictHostKeyChecking=no -o UserKnownHostsFile=/dev/null root@calm-sea.firecracker echo 'nameserver 172.16.0.1' > /etc/resolv.conf) every 100 ms, Some(501) tries"
    );
    assert_eq!(text[logger + 9], "await exists /tmp/firecracker-calm-sea.ip every 500 ms, Some(120) tries");
    assert_eq!(text.len(), logger + 10);
    let s7 = at(7);
    assert_eq!(lines(&s7.phase.script), vec!["remove /tmp/firecracker-calm-sea.ip"]);
    assert_eq!(s7.phase.next, Next::Fetch { source: Source::Canonical { path: "/abs/vmlinux-6.1.141".into() } });
    assert_eq!(s7.record, None);
}

#[test]
fn the_fabric_is_links_and_nat_then_the_hosts_services() {
    let o = options();
    let a = host_assets();
    let first = fabric(&o, &a, &vec![]);
    assert!(first.script.is_empty());
    assert_eq!(first.next, Next::Enter { flow: Subflow::Network });
    let second = fabric(&o, &a, &vec![String::new()]);
    assert_eq!(second.next, Next::Finish);
    let text = lines(&second.script);
    assert_eq!(text[0], "if not succeeds(which mosquitto):");
    assert_eq!(text[4], "if not succeeds(which coredns):");
    assert_eq!(text[13], "if not succeeds(which kea-dhcp4):");
    assert!(text.iter().all(|l| !l.contains("curl") && !l.starts_with("watch ")));
    assert_eq!(fabric(&o, &a, &vec![String::new(), "more".into()]), second);
}

#[test]
fn setup_ends_with_the_row_to_record() {
    let o = options();
    let done = setup(&o, 4242, "/s", "fallback", &Some("/home/u/project".into()), &fetch(8));
    assert_eq!(done.phase.next, Next::Finish);
    assert!(done.phase.script.is_empty());
    let row = done.record.unwrap();
    assert_eq!(row.name, "calm-sea");
    assert_eq!(row.status, "RUNNING");
    assert_eq!(row.distro, "ubuntu");
    assert_eq!(row.vcpu, 2);
    assert_eq!(row.memory, 1024);
    assert_eq!(row.pid, Some(4242));
    assert_eq!(row.tap, "tap0");
    assert_eq!(row.bridge, "fcbr0");
    assert_eq!(row.mac_address, "02:AA:BB:CC:DD:EE");
    assert_eq!(row.api_socket, "/tmp/firecracker-calm-sea.sock");
    assert_eq!(row.ip_address, Some("172.16.0.7".to_string()));
    assert_eq!(row.vmlinux, Some("/abs/booted".to_string()));
    assert_eq!(row.rootfs, Some("/abs/ubuntu-rootfs.img".to_string()));
    assert_eq!(row.project_dir, Some("/home/u/project".to_string()));
    assert_eq!(row.bootargs, None);
    assert_eq!(row.ssh_keys, None);
    assert_eq!(row.id, "");
}

#[test]
fn setup_records_the_keys_comma_joined() {
    let mut o = options();
    o.ssh_keys = Some(vec!["ssh-ed25519 AAA a".to_string(), "ssh-ed25519 BBB b".to_string()]);
    let row = setup(&o, 1, "/s", "x", &None, &fetch(8)).record.unwrap();
    assert_eq!(row.ssh_keys, Some("ssh-ed25519 AAA a,ssh-ed25519 BBB b".to_string()));
    o.ssh_keys = Some(vec![]);
    let row = setup(&o, 1, "/s", "x", &None, &fetch(8)).record.unwrap();
    assert_eq!(row.ssh_keys, Some(String::new()));
}

#[test]
fn setup_variants_for_nixos_names_and_overrides() {
    let mut o = options();
    o.ubuntu = Some(false);
    o.nixos = Some(true);
    o.vmlinux = Some("/my/kernel".into());
    o.api_socket = "/tmp/firecracker-.sock".into();
    let s0 = setup(&o, 1, "/s", "misty-rain", &None, &fetch(0));
    assert_eq!(lines(&s0.phase.script)[1], "create /s/logs/firecracker-misty-rain.log");
    assert_eq!(
        setup(&o, 1, "/s", "misty-rain", &None, &fetch(2)).phase.next,
        Next::Fetch { source: Source::Canonical { path: "/s/nixos-rootfs.img".into() } }
    );
    let s6 = setup(&o, 1, "/s", "misty-rain", &None, &fetch(6));
    let text = lines(&s6.phase.script);
    assert!(text.iter().all(|l| !l.contains("ssh ")));
    assert!(text.iter().any(|l| l.contains(r#""kernel_image_path":"/my/kernel""#)));
    assert_eq!(text.last().unwrap(), "await exists /tmp/firecracker-misty-rain.ip every 500 ms, Some(120) tries");
    assert_eq!(
        setup(&o, 1, "/s", "misty-rain", &None, &fetch(7)).phase.next,
        Next::Fetch { source: Source::Canonical { path: "/my/kernel".into() } }
    );
    let row = setup(&o, 1, "/s", "misty-rain", &None, &fetch(8)).record.unwrap();
    assert_eq!(row.name, "misty-rain");
    assert_eq!(row.distro, "nixos");
    o.nixos = Some(false);
    let none = setup(&o, 1, "/s", "x", &None, &fetch(8));
    assert_eq!(none.record, None);
    match none.phase.next {
        Next::Fail { error } => assert_eq!(error.kind, FailureKind::ConfigInvalid),
        other => panic!("unexpected {:?}", other),
    }
    let _ = Condition::present("x");
}

#[test]
fn lease_events_are_waited_for_on_the_dhcp_topic_for_a_minute() {
    assert_eq!(fireup::vm::mqttc::LEASE_TOPIC, "/dhcp/#");
    assert_eq!(fireup::vm::mqttc::LEASE_WAIT_SECONDS, 60);
}

#[test]
fn a_payload_is_put_over_the_socket_as_json() {
    assert_eq!(
        step(&put("/tmp/firecracker-a.sock", "{}", "http://localhost/actions")),
        "sudo curl -s --fail -X PUT --unix-socket /tmp/firecracker-a.sock -H Content-Type: application/json --data {} http://localhost/actions"
    );
}
