//! Commands that the front end runs in a guest.

use vstd::prelude::*;
use vstd::string::*;
use crate::argv::argv9;
use crate::command::{stream, CommandView, HostCommand};
use crate::text::join2;

verus! {

/// `command` run quietly in the guest at `guest_ip` over SSH, on the
/// caller's streams, with host keys neither checked nor kept.
pub open spec fn ssh_command(key_path: Seq<char>, guest_ip: Seq<char>, command: Seq<char>) -> CommandView {
    stream(
        "ssh"@,
        seq![
            "-q"@,
            "-i"@,
            key_path,
            "-o"@,
            "StrictHostKeyChecking=no"@,
            "-o"@,
            "UserKnownHostsFile=/dev/null"@,
            "root@"@ + guest_ip,
            command,
        ],
        false,
    )
}

pub fn run_ssh_command(key_path: &str, guest_ip: &str, command: &str) -> (r: HostCommand)
    ensures
        r@ == ssh_command(key_path@, guest_ip@, command@),
{
    HostCommand::stream(
        "ssh",
        argv9(
            "-q",
            "-i",
            key_path,
            "-o",
            "StrictHostKeyChecking=no",
            "-o",
            "UserKnownHostsFile=/dev/null",
            join2("root@", guest_ip).as_str(),
            command,
        ),
        false,
    )
}

} // verus!
