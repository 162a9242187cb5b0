use fireup::command::{
    run_command, run_command_in_background, run_command_with_stdout_inherit, HostCommand,
    OutputMode, Privilege,
};
use fireup::error::{Failure, FailureKind};

fn strings(items: &[&str]) -> Vec<String> {
    items.iter().map(|s| s.to_string()).collect()
}

const ROOT: Privilege = Privilege { is_root: true, has_sudo: false };
const USER_WITH_SUDO: Privilege = Privilege { is_root: false, has_sudo: true };
const USER_WITHOUT_SUDO: Privilege = Privilege { is_root: false, has_sudo: false };
const ROOT_WITH_SUDO: Privilege = Privilege { is_root: true, has_sudo: true };

#[test]
fn unprivileged_command_runs_as_it_is() {
    for p in [ROOT, USER_WITH_SUDO, USER_WITHOUT_SUDO, ROOT_WITH_SUDO] {
        let inv = run_command("uname", &strings(&["-m"]), false, p).unwrap();
        assert_eq!(inv.argv, strings(&["uname", "-m"]));
        assert_eq!(inv.mode, OutputMode::Capture);
    }
}

#[test]
fn privileged_command_goes_through_sudo_unless_root() {
    let args = strings(&["link", "show", "tap0"]);
    let inv = run_command("ip", &args, true, USER_WITH_SUDO).unwrap();
    assert_eq!(inv.argv, strings(&["sudo", "ip", "link", "show", "tap0"]));
    let inv = run_command("ip", &args, true, ROOT).unwrap();
    assert_eq!(inv.argv, strings(&["ip", "link", "show", "tap0"]));
    let inv = run_command("ip", &args, true, ROOT_WITH_SUDO).unwrap();
    assert_eq!(inv.argv, strings(&["ip", "link", "show", "tap0"]));
}

#[test]
fn privilege_required_without_sudo_and_not_root() {
    let err = run_command("ip", &strings(&["link"]), true, USER_WITHOUT_SUDO).unwrap_err();
    assert_eq!(err.kind, FailureKind::PrivilegeRequired);
    assert_eq!(err.subject, "ip");
    assert_eq!(err.message(), "sudo is required for command 'ip', but not available");
    assert!(run_command_with_stdout_inherit("wget", &vec![], true, USER_WITHOUT_SUDO).is_err());
    assert!(run_command_in_background("firecracker", &vec![], true, USER_WITHOUT_SUDO).is_err());
}

#[test]
fn the_three_runners_differ_in_mode_only() {
    let args = strings(&["--api-sock", "/tmp/firecracker-a.sock"]);
    let a = run_command("firecracker", &args, true, USER_WITH_SUDO).unwrap();
    let b = run_command_with_stdout_inherit("firecracker", &args, true, USER_WITH_SUDO).unwrap();
    let c = run_command_in_background("firecracker", &args, true, USER_WITH_SUDO).unwrap();
    assert_eq!(a.argv, b.argv);
    assert_eq!(b.argv, c.argv);
    assert_eq!(a.mode, OutputMode::Capture);
    assert_eq!(b.mode, OutputMode::Stream);
    assert_eq!(c.mode, OutputMode::Background);
}

#[test]
fn invocation_follows_the_commands_mode() {
    let c = HostCommand::background("firecracker", strings(&["--api-sock", "s"]), true);
    let inv = c.invocation(USER_WITH_SUDO).unwrap();
    assert_eq!(inv.mode, OutputMode::Background);
    assert_eq!(inv.argv, strings(&["sudo", "firecracker", "--api-sock", "s"]));
    let c = HostCommand::stream("wget", strings(&["-O", "o", "u"]), false);
    assert_eq!(c.invocation(USER_WITHOUT_SUDO).unwrap().mode, OutputMode::Stream);
    let c = HostCommand::capture("cat", strings(&["f"]), true);
    assert_eq!(c.invocation(USER_WITHOUT_SUDO).unwrap_err().kind, FailureKind::PrivilegeRequired);
    assert_eq!(c.duplicate(), c);
}

#[test]
fn outcome_is_stdout_on_success_and_failure_otherwise() {
    let c = HostCommand::capture("mksquashfs", strings(&["a", "b"]), true);
    assert_eq!(c.outcome(true, Some(0), "out".into(), "warn".into()), Ok("out".to_string()));
    let err = c.outcome(false, Some(2), "out".into(), "no space".into()).unwrap_err();
    assert_eq!(
        err,
        Failure {
            kind: FailureKind::ExternalCommandFailed,
            subject: "mksquashfs".into(),
            code: Some(2),
            detail: "no space".into(),
        }
    );
    assert_eq!(err.message(), "Command mksquashfs failed: no space");
    let killed = c.outcome(false, None, String::new(), String::new()).unwrap_err();
    assert_eq!(killed.code, None);
}

#[test]
fn every_failure_kind_has_its_message() {
    let kinds = [
        (FailureKind::KvmUnavailable, "KVM is not available. Please ensure KVM is enabled in your system."),
        (FailureKind::PrivilegeRequired, "sudo is required for command 'x', but not available"),
        (FailureKind::MissingHostTool, "x is not installed. Please install it first."),
        (FailureKind::ConfigInvalid, "Invalid configuration: d"),
        (FailureKind::VmNotFound, "No virtual machine found with name or id 'x'"),
        (FailureKind::ConfigFileNotFound, "Configuration file not found"),
        (FailureKind::KernelNotFound, "Kernel file x does not exist"),
        (FailureKind::TapInUse, "Tap device name x is already in use"),
        (FailureKind::MacInUse, "MAC address x is already in use"),
        (FailureKind::ApiSocketInUse, "API socket x is already in use"),
        (FailureKind::ProjectDirAlreadyBound, "Project directory x already has a virtual machine"),
        (FailureKind::NameInUse, "Name x is already in use"),
        (FailureKind::IdInUse, "Id x is already in use"),
        (FailureKind::ExternalCommandFailed, "Command x failed: d"),
        (FailureKind::HttpApiFailed, "Request to x failed: d"),
        (FailureKind::DownloadFailed, "Failed to download x"),
        (FailureKind::HypervisorStartTimeout, "Timed out waiting for Firecracker to start"),
        (FailureKind::GuestDhcpTimeout, "Timed out waiting for the guest to obtain an IP address"),
        (FailureKind::DatabaseError, "Database operation failed: x"),
        (FailureKind::MigrationFailed, "Failed to apply migration: x"),
    ];
    for (kind, text) in kinds {
        let f = Failure::with_detail(kind, "x", None, "d");
        assert_eq!(f.message(), text);
        assert_eq!(f.duplicate(), f);
    }
    assert_eq!(Failure::new(FailureKind::TapInUse).subject, "");
    assert_eq!(Failure::about(FailureKind::TapInUse, "tap3").subject, "tap3");
}
