use fireup::config::FireConfig;
use fireup::error::{Failure, FailureKind};
use fireup::prepare::Distro;
use fireup::process::{is_running, socket_name, start as start_process, stop as stop_process, stop_all, vm_is_running};
use fireup::script::{Block, Condition, Next, Probe, Source, Step};
use fireup::server::api::microvm::ErrorResponse;
use fireup::server::services::microvm::{
    create_microvm, create_microvm_as, delete_microvm, start_microvm, stop_microvm,
};
use fireup::server::types::microvm::{CreateMicroVM, MicroVM, StartMicroVM};
use fireup::state::entity::virtual_machine::VirtualMachine;
use fireup::state::repo::virtual_machine::{all, create_with_id, find, update, update_status, Inventory};
use fireup::up::cmd::ps::list_all_instances;
use fireup::up::cmd::reset::{reset, reset_scope, ResetScope};
use fireup::up::cmd::ssh::{cp, cp_vm, exec, logs, ssh};
use fireup::up::cmd::start::{rehydrate, start};
use fireup::up::cmd::stop::{down, remove, status, stop};
use fireup::up::cmd::up::{
    allocate_tap, check_kvm_support, first_stage, next_stage, record, resolve_tap,
    retry_tap_selection, up, Stage, TAP_RETRIES,
};
use fireup::up::command::run_ssh_command;
use fireup::up::date::format_duration_ago;
use fireup::up::ssh::get_private_key_path;
use fireup::vm::types::{check_vcpu, VmOptions};

fn strings(items: &[&str]) -> Vec<String> {
    items.iter().map(|s| s.to_string()).collect()
}

fn command(c: &fireup::command::HostCommand) -> String {
    let mode = match c.mode {
        fireup::command::OutputMode::Capture => "",
        fireup::command::OutputMode::Stream => "stream ",
        fireup::command::OutputMode::Background => "background ",
    };
    format!("{}{}{} {}", mode, if c.sudo { "sudo " } else { "" }, c.program, c.args.join(" "))
}

fn probe(p: &Probe) -> String {
    match p {
        Probe::PathExists { path } => format!("exists {}", path),
        Probe::Succeeds { command: c } => format!("succeeds({})", command(c)),
        other => format!("{:?}", other),
    }
}

fn step(s: &Step) -> String {
    match s {
        Step::Run { command: c } => command(c),
        Step::Try { command: c } => format!("try {}", command(c)),
        Step::UpdateStatus { name, status } => format!("status {} = {}", name, status),
        Step::UpdateAllStatus { status } => format!("status * = {}", status),
        Step::DeleteVm { name } => format!("delete {}", name),
        Step::Abort { error } => format!("abort {:?}", error.kind),
        Step::Await { poll } => format!("await {} x{:?}", probe(&poll.probe), poll.tries),
        other => format!("{:?}", other),
    }
}

fn lines(script: &Vec<Block>) -> Vec<String> {
    let mut out = Vec::new();
    for b in script {
        let indent = if b.conditions.is_empty() { "" } else { "  " };
        if !b.conditions.is_empty() {
            let all: Vec<String> = b
                .conditions
                .iter()
                .map(|c| format!("{}{}", if c.expect { "" } else { "not " }, probe(&c.probe)))
                .collect();
            out.push(format!("if {}:", all.join(" and ")));
        }
        for s in &b.steps {
            out.push(format!("{}{}", indent, step(s)));
        }
        if !b.otherwise.is_empty() {
            out.push("else:".to_string());
            for s in &b.otherwise {
                out.push(format!("  {}", step(s)));
            }
        }
    }
    out
}

fn vm(name: &str, tap: &str, n: u32) -> VirtualMachine {
    VirtualMachine {
        name: name.into(),
        vcpu: 2,
        memory: 1024,
        distro: "ubuntu".into(),
        pid: Some(4000 + n),
        mac_address: format!("02:00:00:00:00:{:02X}", n),
        bridge: "fcbr0".into(),
        tap: tap.into(),
        api_socket: format!("/tmp/firecracker-{}.sock", name),
        rootfs: Some(format!("/s/{}-rootfs.img", name)),
        ..Default::default()
    }
}

fn inventory(taps: &[&str]) -> Inventory {
    let mut inv = Inventory::new();
    for (i, tap) in taps.iter().enumerate() {
        create_with_id(&mut inv, vm(&format!("vm{}", i), tap, i as u32), format!("id{}", i), None, 10).unwrap();
    }
    inv
}

fn asking(tap: &str, socket: &str) -> VmOptions {
    VmOptions {
        ubuntu: Some(true),
        vcpu: 2,
        memory: 1024,
        bridge: "fcbr0".into(),
        tap: tap.into(),
        api_socket: socket.into(),
        mac_address: "02:AA:AA:AA:AA:AA".into(),
        ..Default::default()
    }
}

#[test]
fn allocator_hands_out_tap0_on_an_empty_inventory() {
    assert_eq!(allocate_tap(&vec![]), Some("tap0".to_string()));
    assert_eq!(allocate_tap(&all(&inventory(&["eth9", "veth0"]))), Some("tap0".to_string()));
}

#[test]
fn allocator_hands_out_tap1_when_only_tap0_exists() {
    assert_eq!(allocate_tap(&all(&inventory(&["tap0"]))), Some("tap1".to_string()));
}

#[test]
fn allocator_skips_to_the_first_unused_number() {
    assert_eq!(allocate_tap(&all(&inventory(&["tap0", "tap1", "tap2", "tap3", "tap4"]))), Some("tap5".to_string()));
    assert_eq!(allocate_tap(&all(&inventory(&["tap1", "tap2"]))), Some("tap3".to_string()));
    assert_eq!(allocate_tap(&all(&inventory(&["tap0", "tap2"]))), Some("tap3".to_string()));
    assert_eq!(allocate_tap(&all(&inventory(&["tap5"]))), Some("tap1".to_string()));
    assert_eq!(allocate_tap(&all(&inventory(&["tap1", "tapx"]))), Some("tap2".to_string()));
    assert_eq!(allocate_tap(&all(&inventory(&["tap4294967295", "tap1"]))), Some("tap2".to_string()));
}

#[test]
fn allocated_tap_is_never_taken() {
    for taps in [
        vec!["tap0"],
        vec!["tap1", "tap0"],
        vec!["tap3", "tap1", "tap4"],
        vec!["tap2", "tap3", "tapfoo", "br0"],
        vec!["tap9", "tap8", "tap7", "tap6", "tap5", "tap4", "tap3", "tap2", "tap1", "tap0"],
    ] {
        let vms = all(&inventory(&taps));
        let tap = allocate_tap(&vms).unwrap();
        assert!(tap.starts_with("tap"));
        assert!(vms.iter().all(|v| v.tap != tap), "{} is taken in {:?}", tap, taps);
    }
}

#[test]
fn supplied_tap_of_another_vm_is_refused() {
    let vms = all(&inventory(&["tap0", "tap1"]));
    let err = resolve_tap(&vms, "tap1", "/tmp/firecracker-new.sock").unwrap_err();
    assert_eq!(err.kind, FailureKind::TapInUse);
    assert_eq!(err.subject, "tap1");
    assert_eq!(err.message(), "Tap device name tap1 is already in use");
    let err = resolve_tap(&vms, "tap1", "/tmp/firecracker-vm0.sock").unwrap_err();
    assert_eq!(err.kind, FailureKind::TapInUse);
}

#[test]
fn supplied_tap_of_the_same_vm_or_of_nobody_is_accepted() {
    let vms = all(&inventory(&["tap0", "tap1"]));
    assert_eq!(resolve_tap(&vms, "tap1", "/tmp/firecracker-vm1.sock"), Ok("tap1".to_string()));
    assert_eq!(resolve_tap(&vms, "tap7", "/tmp/firecracker-new.sock"), Ok("tap7".to_string()));
    assert_eq!(resolve_tap(&vms, "", "/tmp/firecracker-new.sock"), Ok("tap2".to_string()));
    assert_eq!(resolve_tap(&vec![], "mytap", "s"), Ok("mytap".to_string()));
}

#[test]
fn up_on_an_empty_inventory_is_a_new_vm_on_tap0() {
    let id = up(asking("", "/tmp/firecracker-new.sock"), None, 8, &Inventory::new(), &None).unwrap();
    assert_eq!(id.vm_id, None);
    assert_eq!(id.options.tap, "tap0");
    assert_eq!(id.options.api_socket, "/tmp/firecracker-new.sock");
    assert_eq!(id.options.mac_address, "02:AA:AA:AA:AA:AA");
}

#[test]
fn two_ups_in_a_row_get_tap0_and_tap1() {
    let mut inv = Inventory::new();
    let first = up(asking("", "/tmp/firecracker-one.sock"), None, 8, &inv, &None).unwrap();
    let mut row = vm("one", &first.options.tap, 0);
    row.api_socket = first.options.api_socket.clone();
    create_with_id(&mut inv, row, "id-one".into(), None, 1).unwrap();
    let mut second_options = asking("", "/tmp/firecracker-two.sock");
    second_options.mac_address = "02:BB:BB:BB:BB:BB".into();
    let second = up(second_options, None, 8, &inv, &None).unwrap();
    assert_eq!(first.options.tap, "tap0");
    assert_eq!(second.options.tap, "tap1");
    let mut row = vm("two", &second.options.tap, 1);
    row.mac_address = second.options.mac_address.clone();
    create_with_id(&mut inv, row, "id-two".into(), None, 2).unwrap();
    let rows = all(&inv);
    assert_ne!(rows[0].tap, rows[1].tap);
    assert_ne!(rows[0].mac_address, rows[1].mac_address);
    assert_ne!(rows[0].api_socket, rows[1].api_socket);
    // A third `up` that would take a tap, address or socket already on record is refused.
    let mut racing = vm("three", "tap1", 2);
    racing.mac_address = "02:CC:CC:CC:CC:CC".into();
    assert_eq!(create_with_id(&mut inv, racing, "id-three".into(), None, 3).unwrap_err().kind, FailureKind::TapInUse);
}

#[test]
fn up_takes_a_vm_up_again_by_socket_or_project_dir() {
    let mut inv = inventory(&["tap0", "tap1"]);
    let mut bound = vm("proj", "tap2", 2);
    bound.api_socket = "/tmp/firecracker-proj.sock".into();
    create_with_id(&mut inv, bound, "id-proj".into(), Some("/work/proj".into()), 1).unwrap();
    let by_socket = up(asking("tap1", "/tmp/firecracker-vm1.sock"), None, 8, &inv, &None).unwrap();
    assert_eq!(by_socket.vm_id, Some("id1".to_string()));
    assert_eq!(by_socket.options.tap, "tap1");
    let by_dir = up(
        asking("ignored", "/ignored"),
        Some(FireConfig::with_cpus(4)),
        8,
        &inv,
        &Some("/work/proj".into()),
    )
    .unwrap();
    assert_eq!(by_dir.vm_id, Some("id-proj".to_string()));
    assert_eq!(by_dir.options.api_socket, "/tmp/firecracker-proj.sock");
    // The tap device is left open, so the one on the row is kept, and so is the row's MAC address.
    assert_eq!(by_dir.options.tap, "tap2");
    assert_eq!(by_dir.options.mac_address, "02:00:00:00:00:02");
    let open = up(asking("", "/tmp/firecracker-vm1.sock"), None, 8, &inv, &None).unwrap();
    assert_eq!(open.vm_id, Some("id1".to_string()));
    assert_eq!(open.options.tap, "tap1");
    assert_eq!(open.options.mac_address, "02:00:00:00:00:01");
    // Another tap device that is free may be asked for; the MAC address stays.
    let moved = up(asking("tap7", "/tmp/firecracker-vm1.sock"), None, 8, &inv, &None).unwrap();
    assert_eq!(moved.options.tap, "tap7");
    assert_eq!(moved.options.mac_address, "02:00:00:00:00:01");
    // A microVM that is not on record gets a tap device that no row has, and its own address.
    let fresh = up(asking("", "/tmp/firecracker-new.sock"), None, 8, &inv, &None).unwrap();
    assert_eq!(fresh.vm_id, None);
    assert_eq!(fresh.options.tap, "tap3");
    assert_eq!(fresh.options.mac_address, "02:AA:AA:AA:AA:AA");
    assert_eq!(by_dir.options.vcpu, 4);
    assert_eq!(by_dir.options.memory, 512);
    assert_eq!(by_dir.options.ubuntu, Some(true));
    let elsewhere = up(asking("", "/tmp/firecracker-vm0.sock"), None, 8, &inv, &Some("/other".into())).unwrap();
    assert_eq!(elsewhere.vm_id, Some("id0".to_string()));
    assert_eq!(elsewhere.options.tap, "tap0");
    let refused = up(asking("tap0", "/tmp/firecracker-zz.sock"), None, 8, &inv, &None).unwrap_err();
    assert_eq!(refused.kind, FailureKind::TapInUse);
}

#[test]
fn restart_preserves_identity() {
    let mut inv = inventory(&["tap0", "tap1"]);
    let before = find(&inv, "vm1").unwrap();
    update_status(&mut inv, "vm1", "STOPPED");
    assert_eq!(find(&inv, "vm1").unwrap().status, "STOPPED");
    let options = start(&inv, "vm1", None, None).unwrap();
    let identity = up(options, None, 8, &inv, &None).unwrap();
    assert_eq!(identity.vm_id, Some(before.id.clone()));
    assert_eq!(identity.options.tap, before.tap);
    assert_eq!(identity.options.mac_address, before.mac_address);
    assert_eq!(identity.options.api_socket, before.api_socket);
    let mut row = vm("vm1", &identity.options.tap, 1);
    row.status = "RUNNING".into();
    row.mac_address = identity.options.mac_address.clone();
    update(&mut inv, identity.vm_id.as_ref().unwrap(), row, 99).unwrap();
    let after = find(&inv, "vm1").unwrap();
    assert_eq!(after.id, before.id);
    assert_eq!(after.tap, before.tap);
    assert_eq!(after.mac_address, before.mac_address);
    assert_eq!(after.status, "RUNNING");
    assert_eq!(inv.len(), 2);
}

#[test]
fn start_rehydrates_options_from_the_row() {
    let inv = inventory(&["tap0"]);
    let err = start(&inv, "nobody", None, None).unwrap_err();
    assert_eq!(err.kind, FailureKind::VmNotFound);
    assert_eq!(err.subject, "nobody");
    let mut row = vm("n", "tap3", 3);
    row.distro = "opensuse-tumbleweed".into();
    row.ssh_keys = Some("k1,k2".into());
    row.bootargs = Some("quiet".into());
    let o = rehydrate(row, None, Some("tskey".into()));
    assert_eq!(o.opensuse_tumbleweed, Some(true));
    assert_eq!(o.opensuse, Some(false));
    assert_eq!(o.ubuntu, Some(false));
    assert_eq!(o.distro(), Some(Distro::OpensuseTumbleweed));
    assert_eq!(o.ssh_keys, Some(strings(&["k1", "k2"])));
    assert_eq!(o.bootargs, Some("quiet".to_string()));
    assert_eq!(o.tap, "tap3");
    assert_eq!(o.tailscale.unwrap().auth_key, Some("tskey".to_string()));
    assert_eq!(o.rootfs, Some("/s/n-rootfs.img".to_string()));
}

#[test]
fn kvm_is_required() {
    assert_eq!(
        lines(&check_kvm_support()),
        vec!["if not succeeds(sh -c lsmod | grep kvm):", "  abort KvmUnavailable"]
    );
}

#[test]
fn socket_names() {
    assert_eq!(socket_name("/tmp/firecracker-calm-sea.sock"), "calm-sea");
    assert_eq!(socket_name("/tmp/firecracker-a.sock.sock"), "a");
    assert_eq!(socket_name("/run/fc.sock"), "/run/fc");
    assert_eq!(socket_name(""), "");
}

#[test]
fn stop_kills_removes_the_socket_and_records_it() {
    let inv = inventory(&["tap0"]);
    assert_eq!(
        lines(&stop(&inv, "vm0")),
        vec![
            "if exists /tmp/firecracker-vm0.sock:",
            "  try sudo kill -s KILL 4000",
            "  sudo rm -rf /tmp/firecracker-vm0.sock",
            "  status vm0 = STOPPED",
            "else:",
            "  status vm0 = STOPPED",
        ]
    );
    assert!(stop(&inv, "nobody").is_empty());
    let mut no_pid = vm("x", "tap5", 5);
    no_pid.pid = None;
    let script = stop_process(&Some("x".into()), &Some(no_pid));
    assert_eq!(lines(&script)[1], "  sudo rm -rf /tmp/firecracker-x.sock");
    // The socket that is removed is the one on the row, wherever it lies.
    let mut project = vm("firecracker", "tap6", 6);
    project.api_socket = "/tmp/firecracker.sock".into();
    assert_eq!(
        lines(&stop_process(&Some("firecracker".into()), &Some(project))),
        vec![
            "if exists /tmp/firecracker.sock:",
            "  try sudo kill -s KILL 4006",
            "  sudo rm -rf /tmp/firecracker.sock",
            "  status firecracker = STOPPED",
            "else:",
            "  status firecracker = STOPPED",
        ]
    );
    let mut elsewhere = vm("quiet-owl", "tap7", 7);
    elsewhere.api_socket = "/run/fc/owl.socket".into();
    let script = stop_process(&Some("quiet-owl".into()), &Some(elsewhere));
    assert_eq!(lines(&script)[0], "if exists /run/fc/owl.socket:");
    assert_eq!(lines(&script)[2], "  sudo rm -rf /run/fc/owl.socket");
}

#[test]
fn down_stops_everything_if_anything_runs() {
    let expected = vec![
        "if succeeds(pgrep -x firecracker):",
        "  sudo pkill -x firecracker",
        "  sudo bash -c rm -rf /tmp/firecracker-*.sock",
        "  status * = STOPPED",
    ];
    assert_eq!(lines(&down()), expected);
    assert_eq!(lines(&stop_all()), expected);
    assert_eq!(lines(&stop_process(&None, &None)), expected);
    assert_eq!(probe(&is_running().probe), "succeeds(pgrep -x firecracker)");
}

#[test]
fn status_asks_for_the_socket_and_reconciles() {
    let inv = inventory(&["tap0"]);
    let check = status(&inv, &Some("vm0".into()));
    assert_eq!(check.probe, Some(Condition::present("/tmp/firecracker-vm0.sock")));
    assert_eq!(
        lines(&check.reconcile),
        vec!["if not exists /tmp/firecracker-vm0.sock:", "  status vm0 = STOPPED"]
    );
    let unknown = status(&inv, &Some("nobody".into()));
    assert_eq!(unknown.probe, None);
    assert!(unknown.reconcile.is_empty());
    let any = status(&inv, &None);
    assert_eq!(any.probe, Some(is_running()));
    assert!(any.reconcile.is_empty());
    let direct = vm_is_running("vm0", &find(&inv, "vm0"));
    assert_eq!(direct, check);
}

#[test]
fn process_start_stops_the_old_one_spawns_and_waits_for_the_socket() {
    let inv = inventory(&["tap0"]);
    let o = asking("tap0", "/tmp/firecracker-vm0.sock");
    let first = start_process(&o, &find(&inv, "vm0"), &vec![]);
    assert_eq!(first.pid, None);
    assert_eq!(lines(&first.phase.script), lines(&stop(&inv, "vm0")));
    match &first.phase.next {
        Next::Fetch { source: Source::Spawned { command: c } } => {
            assert_eq!(command(c), "background sudo firecracker --api-sock /tmp/firecracker-vm0.sock")
        }
        other => panic!("unexpected {:?}", other),
    }
    let second = start_process(&o, &None, &strings(&["31337\n"]));
    assert_eq!(second.pid, Some(31337));
    assert_eq!(lines(&second.phase.script), vec!["await exists /tmp/firecracker-vm0.sock xSome(101)"]);
    match &second.phase.script[0].steps[0] {
        Step::Await { poll } => {
            assert_eq!(poll.interval_ms, 500);
            assert_eq!(poll.on_timeout.as_ref().unwrap().kind, FailureKind::HypervisorStartTimeout);
        }
        other => panic!("unexpected {:?}", other),
    }
    let bad = start_process(&o, &None, &strings(&["not a pid"]));
    assert_eq!(bad.pid, None);
    assert!(matches!(bad.phase.next, Next::Fail { .. }));
    let fresh = start_process(&asking("", "/tmp/firecracker-new.sock"), &None, &vec![]);
    assert!(fresh.phase.script.is_empty());
}

#[test]
fn reset_of_one_vm_removes_its_image_and_stops_it() {
    let mut inv = inventory(&["tap0", "tap1"]);
    let o = asking("", "/tmp/firecracker-vm0.sock");
    assert_eq!(reset_scope(&o), ResetScope::OneVm);
    let script = reset(&o, "yes\n", &inv, &vec![]).unwrap();
    assert_eq!(
        lines(&script),
        vec![
            "if exists /tmp/firecracker-vm0.sock:",
            "  try sudo kill -s KILL 4000",
            "  sudo rm -rf /tmp/firecracker-vm0.sock",
            "  status vm0 = STOPPED",
            "else:",
            "  status vm0 = STOPPED",
            "stream rm /s/vm0-rootfs.img",
        ]
    );
    // What the script records, applied to the inventory: vm0 is stopped and still there, vm1 untouched.
    let untouched = find(&inv, "vm1").unwrap();
    update_status(&mut inv, "vm0", "STOPPED");
    assert_eq!(find(&inv, "vm0").unwrap().status, "STOPPED");
    assert_eq!(find(&inv, "vm1").unwrap(), untouched);
    assert_eq!(inv.len(), 2);
}

#[test]
fn reset_needs_confirmation_and_a_known_vm() {
    let inv = inventory(&["tap0"]);
    let o = asking("", "/tmp/firecracker-vm0.sock");
    for answer in ["", "y", "no", "Yes", "yes please"] {
        assert_eq!(reset(&o, answer, &inv, &vec![]), Ok(vec![]));
    }
    assert!(!reset(&o, "  yes  ", &inv, &vec![]).unwrap().is_empty());
    let err = reset(&asking("", "/tmp/firecracker-gone.sock"), "yes", &inv, &vec![]).unwrap_err();
    assert_eq!(err.kind, FailureKind::VmNotFound);
    assert_eq!(err.subject, "gone");
    let mut imageless = Inventory::new();
    let mut row = vm("bare", "tap0", 0);
    row.rootfs = None;
    create_with_id(&mut imageless, row, "i".into(), None, 1).unwrap();
    let script = reset(&asking("", "/tmp/firecracker-bare.sock"), "yes", &imageless, &vec![]).unwrap();
    assert!(script.last().unwrap().steps.is_empty());
}

#[test]
fn reset_of_everything_stops_all_and_removes_every_image() {
    let o = asking("", "");
    assert_eq!(reset_scope(&o), ResetScope::Everything);
    let script = reset(&o, "yes", &Inventory::new(), &strings(&["/s/a.img", "/s/b.img"])).unwrap();
    assert_eq!(
        lines(&script),
        vec![
            "if succeeds(pgrep -x firecracker):",
            "  sudo pkill -x firecracker",
            "  sudo bash -c rm -rf /tmp/firecracker-*.sock",
            "  status * = STOPPED",
            "stream rm /s/a.img",
            "stream rm /s/b.img",
        ]
    );
    assert_eq!(reset(&o, "n", &Inventory::new(), &strings(&["/s/a.img"])), Ok(vec![]));
}

#[test]
fn remove_stops_and_deletes_by_id() {
    let inv = inventory(&["tap0"]);
    let script = remove(&inv, "vm0").unwrap();
    let text = lines(&script);
    assert_eq!(text[..6], lines(&stop(&inv, "vm0"))[..]);
    assert_eq!(text[6], "delete id0");
    assert_eq!(lines(&remove(&inv, "id0").unwrap()), text);
    assert_eq!(remove(&inv, "nobody").unwrap_err().kind, FailureKind::VmNotFound);
}

#[test]
fn ssh_goes_to_the_named_guest_or_the_projects() {
    let c = ssh(&Some("vm0".into()), &None, "/s").unwrap();
    assert_eq!(
        command(&c),
        "stream ssh -i /s/id_rsa -o StrictHostKeyChecking=no -o UserKnownHostsFile=/dev/null root@vm0.firecracker"
    );
    let owner = Some(vm("mine", "tap0", 0));
    let c = ssh(&None, &owner, "/s").unwrap();
    assert!(command(&c).ends_with("root@mine.firecracker"));
    let c = ssh(&Some("named".into()), &owner, "/s").unwrap();
    assert!(command(&c).ends_with("root@named.firecracker"));
    assert_eq!(ssh(&None, &None, "/s").unwrap_err().kind, FailureKind::VmNotFound);
}

#[test]
fn exec_logs_and_guest_commands() {
    assert_eq!(
        command(&exec("vm0", &strings(&["ls", "-la", "/etc"]), "/s/id_rsa")),
        "stream ssh -q -i /s/id_rsa -o StrictHostKeyChecking=no -o UserKnownHostsFile=/dev/null root@vm0.firecracker ls -la /etc"
    );
    assert_eq!(exec("vm0", &vec![], "/k").args[8], "");
    assert_eq!(
        run_ssh_command("/k", "10.0.0.2", "uptime").args,
        strings(&["-q", "-i", "/k", "-o", "StrictHostKeyChecking=no", "-o", "UserKnownHostsFile=/dev/null", "root@10.0.0.2", "uptime"])
    );
    // The log that is shown is the one that the hypervisor writes.
    let owner = Some(vm("proj", "tap2", 2));
    assert_eq!(
        command(&logs(&Some("calm-sea".into()), &owner, "/s", false).unwrap()),
        "stream tail /s/logs/firecracker-calm-sea.log"
    );
    assert_eq!(
        command(&logs(&None, &owner, "/s", true).unwrap()),
        "stream tail -f /s/logs/firecracker-proj.log"
    );
    assert_eq!(logs(&None, &None, "/s", true).unwrap_err().kind, FailureKind::VmNotFound);
}

#[test]
fn cp_copies_to_or_from_the_side_with_a_colon() {
    let from_guest = cp("vm0:/etc/hosts", "./hosts", "/k").unwrap();
    assert_eq!(
        from_guest.args,
        strings(&["-q", "-i", "/k", "-o", "StrictHostKeyChecking=no", "-o", "UserKnownHostsFile=/dev/null", "-r", "root@vm0.firecracker:/etc/hosts", "./hosts"])
    );
    assert_eq!(from_guest.program, "scp");
    assert!(!from_guest.sudo);
    let to_guest = cp("./a b", "vm1:/tmp/x:y", "/k").unwrap();
    assert_eq!(to_guest.args[8..], strings(&["./a b", "root@vm1.firecracker:/tmp/x:y"]));
    let both = cp("vm0:/a", "vm1:/b", "/k").unwrap();
    assert_eq!(both.args[8..], strings(&["root@vm0.firecracker:/a", "vm1:/b"]));
    let err = cp("a", "b", "/k").unwrap_err();
    assert_eq!(err.kind, FailureKind::ConfigInvalid);
    assert_eq!(cp_vm("vm0:/a", "b"), Some("vm0".to_string()));
    assert_eq!(cp_vm("a", "vm1:/b"), Some("vm1".to_string()));
    assert_eq!(cp_vm(":x", "b"), Some(String::new()));
    assert_eq!(cp_vm("a", "b"), None);
}

#[test]
fn ps_lists_running_vms_unless_all_are_asked_for() {
    let mut inv = inventory(&["tap0", "tap1", "tap2"]);
    update_status(&mut inv, "vm1", "STOPPED");
    let rows = all(&inv);
    let names = |v: Vec<VirtualMachine>| v.into_iter().map(|r| r.name).collect::<Vec<_>>();
    assert_eq!(names(list_all_instances(&rows, false)), vec!["vm0", "vm2"]);
    assert_eq!(names(list_all_instances(&rows, true)), vec!["vm0", "vm1", "vm2"]);
    assert!(list_all_instances(&vec![], true).is_empty());
}

#[test]
fn ages_are_told_in_their_largest_unit() {
    let ago = |s: i64| format_duration_ago(1_000_000_000 - s, 1_000_000_000);
    assert_eq!(ago(0), "0 seconds ago");
    assert_eq!(ago(1), "1 second ago");
    assert_eq!(ago(59), "59 seconds ago");
    assert_eq!(ago(60), "1 minute ago");
    assert_eq!(ago(119), "1 minute ago");
    assert_eq!(ago(120), "2 minutes ago");
    assert_eq!(ago(3599), "59 minutes ago");
    assert_eq!(ago(3600), "1 hour ago");
    assert_eq!(ago(86399), "23 hours ago");
    assert_eq!(ago(86400), "1 day ago");
    assert_eq!(ago(6 * 86400), "6 days ago");
    assert_eq!(ago(7 * 86400), "1 week ago");
    assert_eq!(ago(29 * 86400), "4 weeks ago");
    assert_eq!(ago(30 * 86400), "1 month ago");
    assert_eq!(ago(364 * 86400), "12 months ago");
    assert_eq!(ago(365 * 86400), "1 year ago");
    assert_eq!(ago(800 * 86400), "2 years ago");
    assert_eq!(ago(-5), "-5 seconds ago");
    assert_eq!(ago(-1), "-1 seconds ago");
    assert_eq!(ago(-86400), "-86400 seconds ago");
    assert_eq!(format_duration_ago(i64::MIN, i64::MAX), "584942417355 years ago");
    assert_eq!(format_duration_ago(i64::MAX, i64::MIN), "-18446744073709551615 seconds ago");
}

fn request(image: Option<&str>) -> CreateMicroVM {
    CreateMicroVM {
        name: None,
        vcpus: None,
        memory: None,
        image: image.map(|s| s.to_string()),
        vmlinux: None,
        rootfs: None,
        boot_args: None,
        ssh_keys: None,
        start: None,
        tailscale_auth_key: None,
    }
}

#[test]
fn creation_request_becomes_options() {
    let o = request(None).into_options("02:00:00:00:00:01".into(), 4);
    assert_eq!(o.vcpu, 4);
    assert_eq!(o.memory, 512);
    let nixos = request(Some("nixos")).into_options("02:00:00:00:00:01".into(), 8);
    assert_eq!((nixos.vcpu, nixos.memory), (8, 2048));
    assert_eq!(nixos.nixos, Some(true));
    assert_eq!(nixos.ubuntu, None);
    let drawn = request(Some("nixos")).into();
    assert_eq!(drawn.memory, 2048);
    assert!(drawn.vcpu >= 1);
    assert_eq!(o.mac_address, "02:00:00:00:00:01");
    assert_eq!(o.tap, "");
    assert_eq!(o.bridge, "");
    assert_eq!(o.api_socket, "");
    assert_eq!(o.ubuntu, None);
    assert_eq!(o.distro(), Some(Distro::Ubuntu));
    assert_eq!(o.tailscale, None);
    let full = CreateMicroVM {
        vcpus: Some(4),
        memory: Some(2048),
        vmlinux: Some("/k".into()),
        rootfs: Some("/r".into()),
        boot_args: Some("quiet".into()),
        ssh_keys: Some(strings(&["ignored"])),
        tailscale_auth_key: Some("tskey".into()),
        ..request(Some("nixos"))
    };
    let o = full.into_options("m".into(), 4);
    assert_eq!(o.nixos, Some(true));
    assert_eq!(o.debian, None);
    assert_eq!(o.distro(), Some(Distro::NixOS));
    assert_eq!((o.vcpu, o.memory), (4, 2048));
    assert_eq!(o.vmlinux, Some("/k".to_string()));
    assert_eq!(o.rootfs, Some("/r".to_string()));
    assert_eq!(o.bootargs, Some("quiet".to_string()));
    assert_eq!(o.ssh_keys, None);
    assert_eq!(o.tailscale.unwrap().auth_key, Some("tskey".to_string()));
    for tag in ["debian", "alpine", "fedora", "gentoo", "slackware", "opensuse", "opensuse-tumbleweed", "almalinux", "rockylinux", "archlinux", "ubuntu"] {
        assert_eq!(request(Some(tag)).into_options(String::new(), 4).distro().unwrap().to_string(), tag);
    }
    assert_eq!(request(Some("plan9")).into_options(String::new(), 4).distro(), Some(Distro::Ubuntu));
    let generated = request(None).into();
    assert_eq!(generated.mac_address.len(), 17);
    assert_eq!(u8::from_str_radix(&generated.mac_address[0..2], 16).unwrap() & 3, 2);
}

#[test]
fn api_create_names_socket_bridge_and_tap() {
    let inv = inventory(&["tap0"]);
    let id = create_microvm_as(&inv, request(Some("alpine")), "02:DD:DD:DD:DD:DD".into(), "calm-sea", 4).unwrap();
    assert_eq!(id.vm_id, None);
    assert_eq!(id.options.api_socket, "/tmp/firecracker-calm-sea.sock");
    assert_eq!(id.options.bridge, "fcbr0");
    assert_eq!(id.options.tap, "tap1");
    assert_eq!(id.options.mac_address, "02:DD:DD:DD:DD:DD");
    assert_eq!(id.options.alpine, Some(true));
    assert_eq!(id.options.ssh_keys, None);
    let generated = create_microvm(&inv, request(None)).unwrap();
    assert!(generated.options.api_socket.starts_with("/tmp/firecracker-"));
    assert!(generated.options.api_socket.ends_with(".sock"));
    assert_eq!(generated.options.tap, "tap1");
}

#[test]
fn api_create_goes_by_the_name_and_keys_asked_for() {
    let inv = inventory(&["tap0"]);
    let mut asked = request(Some("alpine"));
    asked.name = Some("my-vm".into());
    asked.ssh_keys = Some(strings(&["ssh-ed25519 AAA a", "ssh-ed25519 BBB b"]));
    let id = create_microvm_as(&inv, asked.clone(), "02:DD:DD:DD:DD:DD".into(), "calm-sea", 4).unwrap();
    assert_eq!(id.options.api_socket, "/tmp/firecracker-my-vm.sock");
    assert_eq!(id.options.ssh_keys, Some(strings(&["ssh-ed25519 AAA a", "ssh-ed25519 BBB b"])));
    assert_eq!(create_microvm(&inv, asked.clone()).unwrap().options.api_socket, "/tmp/firecracker-my-vm.sock");
    asked.name = Some(String::new());
    let id = create_microvm_as(&inv, asked, "02:DD:DD:DD:DD:DD".into(), "calm-sea", 4).unwrap();
    assert_eq!(id.options.api_socket, "/tmp/firecracker-calm-sea.sock");
}

#[test]
fn api_start_stop_and_delete() {
    let mut inv = inventory(&["tap0", "tap1"]);
    let mut keyed = vm("keyed", "tap2", 2);
    keyed.ssh_keys = Some("k1,k2".into());
    create_with_id(&mut inv, keyed, "id-keyed".into(), None, 1).unwrap();
    let again = start_microvm(&inv, "id-keyed").unwrap();
    assert_eq!(again.vm_id, Some("id-keyed".to_string()));
    assert_eq!(again.options.tap, "tap2");
    assert_eq!(again.options.ssh_keys, Some(strings(&["k1", "k2"])));
    assert_eq!(start_microvm(&inv, "vm0").unwrap().options.ssh_keys, None);
    assert_eq!(start_microvm(&inv, "nobody").unwrap_err().kind, FailureKind::VmNotFound);

    let stopped = stop_microvm(&inv, "vm1").unwrap();
    assert_eq!(stopped.vm.status, "STOPPED");
    assert_eq!(stopped.vm.name, "vm1");
    assert_eq!(lines(&stopped.script).last().unwrap(), "status vm1 = STOPPED");
    assert_eq!(lines(&stopped.script).len(), 7);
    assert_eq!(stop_microvm(&inv, "nobody"), None);

    let deleted = delete_microvm(&inv, "id0").unwrap();
    assert_eq!(deleted.vm.status, "DELETED");
    assert_eq!(deleted.vm.id, "id0");
    assert_eq!(lines(&deleted.script).last().unwrap(), "delete id0");
    assert_eq!(delete_microvm(&inv, "nobody"), None);
}

#[test]
fn api_values() {
    assert_eq!(ErrorResponse::NotFound("x".into()).status(), 404);
    assert_eq!(ErrorResponse::Conflict("x".into()).status(), 409);
    assert_eq!(ErrorResponse::Unauthorized("x".into()).status(), 401);
    let s = StartMicroVM { tailscale_auth_key: Some("k".into()) };
    assert_eq!(s.duplicate(), s);
    let m = MicroVM {
        id: "i".into(),
        name: "n".into(),
        image: "alpine".into(),
        vcpu: 1,
        memory: 512,
        vmlinux: "/k".into(),
        rootfs: "/r".into(),
        boot_args: String::new(),
        status: "RUNNING".into(),
        ssh_keys: vec![],
    };
    assert_eq!(m.duplicate(), m);
    assert_eq!(request(Some("x")).duplicate(), request(Some("x")));
}

#[test]
fn up_waits_for_the_hypervisor_once_a_second() {
    let script = fireup::up::cmd::up::await_hypervisor();
    assert_eq!(script.len(), 1);
    match &script[0].steps[0] {
        Step::Await { poll } => {
            assert_eq!(poll.probe, is_running().probe);
            assert!(poll.expect);
            assert!(poll.pause_first);
            assert_eq!(poll.interval_ms, 1000);
            assert_eq!(poll.tries, None);
            assert_eq!(poll.on_timeout, None);
        }
        other => panic!("unexpected {:?}", other),
    }
}

#[test]
fn private_key_is_looked_for_in_the_state_directory() {
    let home = Some("/home/u".to_string());
    let first = get_private_key_path(&home, &vec![]);
    assert_eq!(first.path, None);
    assert_eq!(first.phase.next, Next::Fetch { source: Source::LastMatch { pattern: "/home/u/.fireup/id_rsa".into() } });
    let second = get_private_key_path(&home, &strings(&["/home/u/.fireup/id_rsa"]));
    assert_eq!(second.phase.next, Next::Fetch { source: Source::Canonical { path: "/home/u/.fireup/id_rsa".into() } });
    let done = get_private_key_path(&home, &strings(&["/home/u/.fireup/id_rsa", "/data/home/u/.fireup/id_rsa"]));
    assert_eq!(done.path, Some("/data/home/u/.fireup/id_rsa".to_string()));
    assert_eq!(done.phase.next, Next::Finish);
    let lost = get_private_key_path(&None, &vec![]);
    assert_eq!(lost.path, None);
    match lost.phase.next {
        Next::Fail { error } => assert_eq!(error.kind, FailureKind::ConfigInvalid),
        other => panic!("unexpected {:?}", other),
    }
}

#[test]
fn a_lost_tap_is_chosen_again_three_times_at_most() {
    let lost = Failure::about(FailureKind::TapInUse, "tap1");
    let other = Failure::about(FailureKind::MacInUse, "m");
    assert_eq!(TAP_RETRIES, 3);
    for attempts in 0..3 {
        assert!(retry_tap_selection("", &lost, attempts));
    }
    assert!(!retry_tap_selection("", &lost, 3));
    assert!(!retry_tap_selection("", &lost, u32::MAX));
    assert!(!retry_tap_selection("tap1", &lost, 0));
    assert!(!retry_tap_selection("", &other, 0));
}

#[test]
fn stages_run_from_the_fabric_to_the_row() {
    let mut seen = vec![first_stage()];
    while *seen.last().unwrap() != Stage::Done {
        let next = next_stage(*seen.last().unwrap());
        seen.push(next);
        assert!(seen.len() <= 8);
    }
    assert_eq!(
        seen,
        vec![
            Stage::Fabric,
            Stage::Assemble,
            Stage::Spawn,
            Stage::AwaitHypervisor,
            Stage::Setup,
            Stage::Record,
            Stage::Tailnet,
            Stage::Done,
        ]
    );
    assert_eq!(next_stage(Stage::Done), Stage::Done);
}

#[test]
fn record_adds_a_row_for_a_new_microvm() {
    let mut inv = inventory(&["tap0"]);
    let id = record(&mut inv, &None, vm("fresh", "tap1", 1), Some("/p".into()), 50).unwrap();
    assert_eq!(id.len(), 20);
    let rows = all(&inv);
    assert_eq!(rows.len(), 2);
    assert_eq!(
        rows[1],
        VirtualMachine {
            id: id.clone(),
            status: "RUNNING".into(),
            project_dir: Some("/p".into()),
            created_at: 50,
            updated_at: 50,
            ..vm("fresh", "tap1", 1)
        }
    );
    let again = record(&mut inv, &None, vm("other", "tap1", 2), None, 51);
    assert_eq!(again.unwrap_err().kind, FailureKind::TapInUse);
    assert_eq!(all(&inv), rows);
}

#[test]
fn record_replaces_the_row_of_a_microvm_taken_up_again() {
    let mut inv = inventory(&["tap0", "tap1"]);
    let before = all(&inv);
    let mut row = vm("renamed", "tap0", 0);
    row.status = "RUNNING".into();
    row.ip_address = Some("172.16.0.5".into());
    row.ssh_keys = Some("k1,k2".into());
    let id = record(&mut inv, &Some("id0".into()), row.clone(), Some("/ignored".into()), 99).unwrap();
    assert_eq!(id, "id0");
    let rows = all(&inv);
    assert_eq!(
        rows[0],
        VirtualMachine { id: "id0".into(), name: "vm0".into(), created_at: 10, updated_at: 99, ..row }
    );
    assert_eq!(rows[1], before[1]);
    let taken = record(&mut inv, &Some("id0".into()), vm("vm0", "tap1", 0), None, 100);
    assert_eq!(taken.unwrap_err().kind, FailureKind::TapInUse);
    assert_eq!(all(&inv), rows);
    assert_eq!(record(&mut inv, &Some("nobody".into()), vm("x", "tap7", 7), None, 101).unwrap(), "nobody");
    assert_eq!(all(&inv), rows);
}

#[test]
fn failures_are_turned_down_by_their_class() {
    let about = |kind: FailureKind| Failure::about(kind, "x");
    assert_eq!(ErrorResponse::refusal(&about(FailureKind::VmNotFound)), Some(ErrorResponse::NotFound("x".into())));
    for kind in [
        FailureKind::TapInUse,
        FailureKind::MacInUse,
        FailureKind::ApiSocketInUse,
        FailureKind::ProjectDirAlreadyBound,
        FailureKind::NameInUse,
        FailureKind::IdInUse,
    ] {
        assert_eq!(ErrorResponse::refusal(&about(kind)), Some(ErrorResponse::Conflict("x".into())));
    }
    assert_eq!(
        ErrorResponse::refusal(&about(FailureKind::PrivilegeRequired)),
        Some(ErrorResponse::Unauthorized("x".into()))
    );
    for kind in [
        FailureKind::KvmUnavailable,
        FailureKind::MissingHostTool,
        FailureKind::ConfigInvalid,
        FailureKind::ConfigFileNotFound,
        FailureKind::KernelNotFound,
        FailureKind::ExternalCommandFailed,
        FailureKind::HttpApiFailed,
        FailureKind::DownloadFailed,
        FailureKind::HypervisorStartTimeout,
        FailureKind::GuestDhcpTimeout,
        FailureKind::DatabaseError,
        FailureKind::MigrationFailed,
    ] {
        assert_eq!(ErrorResponse::refusal(&about(kind)), None);
    }
}

#[test]
fn a_guest_has_at_least_one_processor_and_no_more_than_the_host() {
    let inv = inventory(&["tap0"]);
    let asked = |vcpu: u16| VmOptions { vcpu, ..asking("", "/tmp/firecracker-new.sock") };
    for (vcpu, cpus) in [(1u16, 1u16), (1, 8), (8, 8), (4, 8)] {
        assert_eq!(up(asked(vcpu), None, cpus, &inv, &None).unwrap().options.vcpu, vcpu);
    }
    for (vcpu, cpus) in [(0u16, 8u16), (9, 8), (2, 1), (1, 0), (65535, 8)] {
        let refused = up(asked(vcpu), None, cpus, &inv, &None).unwrap_err();
        assert_eq!(refused.kind, FailureKind::ConfigInvalid);
        assert_eq!(refused.subject, "vcpu");
    }
    assert_eq!(check_vcpu(0, 4).unwrap_err().kind, FailureKind::ConfigInvalid);
    assert_eq!(check_vcpu(4, 4), Ok(()));
    let mut request = request(Some("alpine"));
    request.vcpus = Some(9);
    let refused = create_microvm_as(&inv, request.clone(), "02:DD:DD:DD:DD:DD".into(), "calm-sea", 8).unwrap_err();
    assert_eq!(refused.kind, FailureKind::ConfigInvalid);
    request.vcpus = Some(0);
    assert!(create_microvm_as(&inv, request.clone(), "02:DD:DD:DD:DD:DD".into(), "calm-sea", 8).is_err());
    request.vcpus = None;
    assert_eq!(create_microvm_as(&inv, request, "02:DD:DD:DD:DD:DD".into(), "calm-sea", 8).unwrap().options.vcpu, 8);
}
