//! `ssh`, `exec`, `cp`, `logs`: reaching into a guest, and reading what
//! its hypervisor logged.

use vstd::prelude::*;
use vstd::string::*;
use crate::argv::{argv1, argv2, argv7, argv10};
use crate::command::{stream, CommandView, HostCommand};
use crate::error::{about, lifted, Failure, FailureKind, FailureView};
use crate::state::entity::virtual_machine::{VirtualMachine, VirtualMachineView};
use crate::text::{
    after_first, before_first, first_segment, join, join2, join4, joined, occurs_in,
    rest_after_first,
};
use crate::up::command::{run_ssh_command, ssh_command};

verus! {

/// An interactive shell in a guest.
pub open spec fn ssh_shell(private_key: Seq<char>, guest: Seq<char>) -> CommandView {
    stream(
        "ssh"@,
        seq![
            "-i"@,
            private_key,
            "-o"@,
            "StrictHostKeyChecking=no"@,
            "-o"@,
            "UserKnownHostsFile=/dev/null"@,
            "root@"@ + guest,
        ],
        false,
    )
}

/// A shell in the guest `name`, or, where no name is given, in the
/// guest that belongs to the working directory; with neither, the
/// command fails with `VmNotFound`.  The guest is addressed by its name
/// in the guests' zone, with the default key of the state directory.
pub open spec fn ssh_of(
    name: Option<Seq<char>>,
    owner: Option<VirtualMachineView>,
    app_dir: Seq<char>,
) -> Result<CommandView, FailureView> {
    match name {
        Some(n) => Ok(ssh_shell(app_dir + "/id_rsa"@, n + ".firecracker"@)),
        None => match owner {
            Some(vm) => Ok(ssh_shell(app_dir + "/id_rsa"@, vm.name + ".firecracker"@)),
            None => Err(
                about(
                    FailureKind::VmNotFound,
                    "No virtual machine found with the given name or project directory."@,
                ),
            ),
        },
    }
}

fn shell(private_key: &str, guest: &str) -> (r: HostCommand)
    ensures
        r@ == ssh_shell(private_key@, guest@),
{
    HostCommand::stream(
        "ssh",
        argv7(
            "-i",
            private_key,
            "-o",
            "StrictHostKeyChecking=no",
            "-o",
            "UserKnownHostsFile=/dev/null",
            join2("root@", guest).as_str(),
        ),
        false,
    )
}

/// A shell in a guest; `owner` is the microVM on record for the working
/// directory.
pub fn ssh(name: &Option<String>, owner: &Option<VirtualMachine>, app_dir: &str) -> (r: Result<
    HostCommand,
    Failure,
>)
    ensures
        lifted(r) == ssh_of(name.deep_view(), owner.deep_view(), app_dir@),
{
    let key = join2(app_dir, "/id_rsa");
    match name {
        Some(n) => Ok(shell(key.as_str(), join2(n.as_str(), ".firecracker").as_str())),
        None => match owner {
            Some(vm) => Ok(shell(key.as_str(), join2(vm.name.as_str(), ".firecracker").as_str())),
            None => Err(
                Failure::about(
                    FailureKind::VmNotFound,
                    "No virtual machine found with the given name or project directory.",
                ),
            ),
        },
    }
}

/// The words of a command, with blanks between them, run in the guest
/// `name`.
pub open spec fn exec_of(name: Seq<char>, args: Seq<Seq<char>>, key_path: Seq<char>) -> CommandView {
    ssh_command(key_path, name + ".firecracker"@, joined(args, " "@))
}

/// Runs a command in the guest `name`.
pub fn exec(name: &str, args: &Vec<String>, key_path: &str) -> (r: HostCommand)
    ensures
        r@ == exec_of(name@, args.deep_view(), key_path@),
{
    run_ssh_command(key_path, join2(name, ".firecracker").as_str(), join(args, " ").as_str())
}

/// The microVM that a copy involves: what precedes the first colon of
/// the source, if it has one, else of the destination.
pub open spec fn cp_vm_name(from: Seq<char>, to: Seq<char>) -> Option<Seq<char>> {
    if occurs_in(":"@, from) {
        Some(first_segment(from, ':'))
    } else if occurs_in(":"@, to) {
        Some(first_segment(to, ':'))
    } else {
        None
    }
}

/// A recursive, quiet `scp` with the given key.
pub open spec fn scp(key_path: Seq<char>, source: Seq<char>, target: Seq<char>) -> CommandView {
    stream(
        "scp"@,
        seq![
            "-q"@,
            "-i"@,
            key_path,
            "-o"@,
            "StrictHostKeyChecking=no"@,
            "-o"@,
            "UserKnownHostsFile=/dev/null"@,
            "-r"@,
            source,
            target,
        ],
        false,
    )
}

/// A copy between the host and a guest: the side written as
/// `<vm>:<path>` is in the guest.  A copy that names no guest fails.
pub open spec fn cp_of(from: Seq<char>, to: Seq<char>, key_path: Seq<char>) -> Result<
    CommandView,
    FailureView,
> {
    if occurs_in(":"@, from) {
        Ok(
            scp(
                key_path,
                "root@"@ + first_segment(from, ':') + ".firecracker:"@ + rest_after_first(
                    from,
                    ':',
                )->0,
                to,
            ),
        )
    } else if occurs_in(":"@, to) {
        Ok(
            scp(
                key_path,
                from,
                "root@"@ + first_segment(to, ':') + ".firecracker:"@ + rest_after_first(to, ':')->0,
            ),
        )
    } else {
        Err(
            about(
                FailureKind::ConfigInvalid,
                "Either source or destination must be in the format <vm_name>:<path>"@,
            ),
        )
    }
}

proof fn lemma_colon_found(s: Seq<char>)
    ensures
        occurs_in(":"@, s) <==> crate::text::find_char(s, ':', 0) < s.len(),
{
    reveal_strlit(":");
    lemma_find_char(s, ':', 0);
    let k = crate::text::find_char(s, ':', 0);
    if k < s.len() {
        assert(s.subrange(k, k + 1) =~= ":"@);
        assert(crate::text::matches_at(s, k, ":"@));
    }
    if occurs_in(":"@, s) {
        let i = choose|i: int| crate::text::matches_at(s, i, ":"@);
        assert(s.subrange(i, i + 1)[0] == ':');
    }
}

proof fn lemma_find_char(s: Seq<char>, c: char, i: int)
    requires
        0 <= i <= s.len(),
    ensures
        i <= crate::text::find_char(s, c, i) <= s.len(),
        crate::text::find_char(s, c, i) < s.len() ==> s[crate::text::find_char(s, c, i)] == c,
        forall|j: int| i <= j < crate::text::find_char(s, c, i) ==> s[j] != c,
    decreases s.len() - i,
{
    if i < s.len() && s[i] != c {
        lemma_find_char(s, c, i + 1);
    }
}

fn remote(side: &str) -> (r: Option<(String, String)>)
    ensures
        r is Some == occurs_in(":"@, side@),
        r matches Some(found) ==> found.0@ == first_segment(side@, ':') && Some(found.1@)
            == rest_after_first(side@, ':'),
{
    proof {
        lemma_colon_found(side@);
    }
    match after_first(side, ':') {
        Some(path) => Some((before_first(side, ':'), path)),
        None => None,
    }
}

/// The microVM that a copy involves.
pub fn cp_vm(from: &str, to: &str) -> (r: Option<String>)
    ensures
        r.deep_view() == cp_vm_name(from@, to@),
{
    match remote(from) {
        Some(found) => Some(found.0),
        None => match remote(to) {
            Some(found) => Some(found.0),
            None => None,
        },
    }
}

fn copy(key_path: &str, source: &str, target: &str) -> (r: HostCommand)
    ensures
        r@ == scp(key_path@, source@, target@),
{
    HostCommand::stream(
        "scp",
        argv10(
            "-q",
            "-i",
            key_path,
            "-o",
            "StrictHostKeyChecking=no",
            "-o",
            "UserKnownHostsFile=/dev/null",
            "-r",
            source,
            target,
        ),
        false,
    )
}

/// Copies between the host and a guest.
pub fn cp(from: &str, to: &str, key_path: &str) -> (r: Result<HostCommand, Failure>)
    ensures
        lifted(r) == cp_of(from@, to@, key_path@),
{
    match remote(from) {
        Some(found) => Ok(
            copy(
                key_path,
                join4("root@", found.0.as_str(), ".firecracker:", found.1.as_str()).as_str(),
                to,
            ),
        ),
        None => match remote(to) {
            Some(found) => Ok(
                copy(
                    key_path,
                    from,
                    join4("root@", found.0.as_str(), ".firecracker:", found.1.as_str()).as_str(),
                ),
            ),
            None => Err(
                Failure::about(
                    FailureKind::ConfigInvalid,
                    "Either source or destination must be in the format <vm_name>:<path>",
                ),
            ),
        },
    }
}

/// The end of a hypervisor's log, followed as it grows if asked.
pub open spec fn log_tail(logfile: Seq<char>, follow: bool) -> CommandView {
    stream(
        "tail"@,
        if follow {
            seq!["-f"@, logfile]
        } else {
            seq![logfile]
        },
        false,
    )
}

/// The end of the log of the hypervisor of the microVM `name`, or, where
/// no name is given, of the microVM that belongs to the working
/// directory; with neither, the command fails with `VmNotFound`.  The
/// log is the one that the hypervisor is set up to write,
/// `logs/firecracker-<name>.log` in the state directory.
pub open spec fn logs_of(
    name: Option<Seq<char>>,
    owner: Option<VirtualMachineView>,
    app_dir: Seq<char>,
    follow: bool,
) -> Result<CommandView, FailureView> {
    match name {
        Some(n) => Ok(log_tail(crate::vm::logfile_of(app_dir, n), follow)),
        None => match owner {
            Some(vm) => Ok(log_tail(crate::vm::logfile_of(app_dir, vm.name), follow)),
            None => Err(
                about(
                    FailureKind::VmNotFound,
                    "No virtual machine found with the given name or project directory."@,
                ),
            ),
        },
    }
}

fn tail(app_dir: &str, name: &str, follow: bool) -> (r: HostCommand)
    ensures
        r@ == log_tail(crate::vm::logfile_of(app_dir@, name@), follow),
{
    let logfile = join4(app_dir, "/logs/firecracker-", name, ".log");
    if follow {
        HostCommand::stream("tail", argv2("-f", logfile.as_str()), false)
    } else {
        HostCommand::stream("tail", argv1(logfile.as_str()), false)
    }
}

/// Shows a hypervisor's log; `owner` is the microVM on record for the
/// working directory.
pub fn logs(
    name: &Option<String>,
    owner: &Option<VirtualMachine>,
    app_dir: &str,
    follow: bool,
) -> (r: Result<HostCommand, Failure>)
    ensures
        lifted(r) == logs_of(name.deep_view(), owner.deep_view(), app_dir@, follow),
{
    match name {
        Some(n) => Ok(tail(app_dir, n.as_str(), follow)),
        None => match owner {
            Some(vm) => Ok(tail(app_dir, vm.name.as_str(), follow)),
            None => Err(
                Failure::about(
                    FailureKind::VmNotFound,
                    "No virtual machine found with the given name or project directory.",
                ),
            ),
        },
    }
}

} // verus!
