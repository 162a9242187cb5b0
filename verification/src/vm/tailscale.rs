//! Joining a guest to a tailnet.

use vstd::prelude::*;
use vstd::string::*;
use vstd::utf8::encode_utf8;
use crate::argv::argv6;
use crate::command::{stream, CommandView, HostCommand};
use crate::error::{about, lifted, Failure, FailureKind, FailureView};
use crate::script::{
    always, push_block, push_step, run, script0, steps0, Block, BlockView, Step, StepView,
};
use crate::text::{join2, join4};
use crate::vm::types::{on, VmOptions, VmOptionsView};

verus! {

/// `command` run in the guest over SSH, on the caller's streams.
pub open spec fn ssh_command(key_path: Seq<char>, guest_ip: Seq<char>, command: Seq<char>) -> CommandView {
    stream(
        "ssh"@,
        seq!["-i"@, key_path, "-o"@, "StrictHostKeyChecking=no"@, "root@"@ + guest_ip, command],
        false,
    )
}

/// The key with which a guest joins, if one is configured.
pub open spec fn auth_key_of(config: VmOptionsView) -> Option<Seq<char>> {
    match config.tailscale {
        Some(t) => t.auth_key,
        None => None,
    }
}

/// What is run in the guest `name`, in order: a stale namespace helper is
/// removed; what the installer needs is added on Alpine, Gentoo and
/// Slackware; tailscale is installed unless it is there; the daemon is
/// brought up (by systemd except on Alpine and Slackware) and joins with
/// `auth_key` under the guest's name; and its state is shown.
pub open spec fn tailscale_commands(name: Seq<char>, auth_key: Seq<char>, config: VmOptionsView) -> Seq<
    Seq<char>,
> {
    seq!["rm -f /etc/security/namespace.init"@] + (if on(config.alpine, false) {
        seq!["apk add openrc"@]
    } else {
        Seq::empty()
    }) + (if on(config.gentoo, false) {
        seq!["emerge --sync"@, "emerge net-misc/curl"@]
    } else {
        Seq::empty()
    }) + (if on(config.slackware, false) {
        seq![
            "yes | slackpkg install nghttp2 brotli zstd libidn2 libpsl cyrus-sasl perl"@,
            "update-ca-certificates --fresh"@,
        ]
    } else {
        Seq::empty()
    }) + seq!["type tailscaled || curl -fsSL https://tailscale.com/install.sh | sh"@] + (if on(
        config.alpine,
        false,
    ) || on(config.slackware, false) {
        seq!["tailscale up --auth-key "@ + auth_key + " --hostname "@ + name, "rc-status"@]
    } else {
        seq![
            "systemctl enable tailscaled && systemctl start tailscaled || true"@,
            "tailscale up --auth-key "@ + auth_key + " --hostname "@ + name,
            "systemctl status tailscaled || true"@,
        ]
    }) + seq!["tailscale status || true"@]
}

/// The first `n` commands as steps over SSH.
pub open spec fn ssh_steps_upto(
    key_path: Seq<char>,
    guest_ip: Seq<char>,
    commands: Seq<Seq<char>>,
    n: int,
) -> Seq<StepView>
    decreases n,
{
    if n <= 0 {
        Seq::empty()
    } else {
        ssh_steps_upto(key_path, guest_ip, commands, n - 1).push(
            run(ssh_command(key_path, guest_ip, commands[n - 1])),
        )
    }
}

/// Joins the guest `name` to the tailnet.  Nothing is done where no key
/// is configured; a key of sixteen bytes or fewer is refused.
pub open spec fn tailscale_setup_of(name: Seq<char>, config: VmOptionsView, key_path: Seq<char>) -> Result<
    Seq<BlockView>,
    FailureView,
> {
    match auth_key_of(config) {
        None => Ok(Seq::empty()),
        Some(auth_key) => if encode_utf8(auth_key).len() > 16 {
            Ok(
                seq![
                    always(
                        ssh_steps_upto(
                            key_path,
                            name + ".firecracker"@,
                            tailscale_commands(name, auth_key, config),
                            tailscale_commands(name, auth_key, config).len() as int,
                        ),
                    ),
                ],
            )
        } else {
            Err(about(FailureKind::ConfigInvalid, "Tailscale auth key is too short"@))
        },
    }
}

/// `command` run in a guest over SSH.
pub fn run_ssh_command(key_path: &str, guest_ip: &str, command: &str) -> (r: HostCommand)
    ensures
        r@ == ssh_command(key_path@, guest_ip@, command@),
{
    HostCommand::stream(
        "ssh",
        argv6(
            "-i",
            key_path,
            "-o",
            "StrictHostKeyChecking=no",
            join2("root@", guest_ip).as_str(),
            command,
        ),
        false,
    )
}

fn queue(commands: &mut Vec<String>, command: &str)
    ensures
        final(commands).deep_view() == old(commands).deep_view() + seq![command@],
{
    commands.push(String::from_str(command));
    assert(commands.deep_view() =~= old(commands).deep_view() + seq![command@]);
}

fn commands_for(name: &str, auth_key: &str, config: &VmOptions) -> (r: Vec<String>)
    ensures
        r.deep_view() == tailscale_commands(name@, auth_key@, config@),
{
    let alpine = match config.alpine {
        Some(b) => b,
        None => false,
    };
    let gentoo = match config.gentoo {
        Some(b) => b,
        None => false,
    };
    let slackware = match config.slackware {
        Some(b) => b,
        None => false,
    };
    let up = join4("tailscale up --auth-key ", auth_key, " --hostname ", name);
    let mut v: Vec<String> = Vec::new();
    let ghost e = Seq::<Seq<char>>::empty();
    v.push(String::from_str("rm -f /etc/security/namespace.init"));
    assert(v.deep_view() =~= seq!["rm -f /etc/security/namespace.init"@]);
    let ghost s0 = v.deep_view();
    if alpine {
        queue(&mut v, "apk add openrc");
    }
    let ghost s1 = v.deep_view();
    assert(s1 =~= s0 + (if alpine {
        seq!["apk add openrc"@]
    } else {
        e
    }));
    if gentoo {
        queue(&mut v, "emerge --sync");
        queue(&mut v, "emerge net-misc/curl");
    }
    let ghost s2 = v.deep_view();
    assert(s2 =~= s1 + (if gentoo {
        seq!["emerge --sync"@, "emerge net-misc/curl"@]
    } else {
        e
    }));
    if slackware {
        queue(&mut v, "yes | slackpkg install nghttp2 brotli zstd libidn2 libpsl cyrus-sasl perl");
        queue(&mut v, "update-ca-certificates --fresh");
    }
    let ghost s3 = v.deep_view();
    assert(s3 =~= s2 + (if slackware {
        seq![
            "yes | slackpkg install nghttp2 brotli zstd libidn2 libpsl cyrus-sasl perl"@,
            "update-ca-certificates --fresh"@,
        ]
    } else {
        e
    }));
    queue(&mut v, "type tailscaled || curl -fsSL https://tailscale.com/install.sh | sh");
    let ghost s4 = v.deep_view();
    if alpine || slackware {
        queue(&mut v, up.as_str());
        queue(&mut v, "rc-status");
    } else {
        queue(&mut v, "systemctl enable tailscaled && systemctl start tailscaled || true");
        queue(&mut v, up.as_str());
        queue(&mut v, "systemctl status tailscaled || true");
    }
    let ghost s5 = v.deep_view();
    assert(s5 =~= s4 + (if alpine || slackware {
        seq![up@, "rc-status"@]
    } else {
        seq![
            "systemctl enable tailscaled && systemctl start tailscaled || true"@,
            up@,
            "systemctl status tailscaled || true"@,
        ]
    }));
    queue(&mut v, "tailscale status || true");
    v
}

/// Joins the guest `name` to the tailnet, over SSH with the key at
/// `key_path`.
pub fn setup_tailscale(name: &str, config: &VmOptions, key_path: &str) -> (r: Result<
    Vec<Block>,
    Failure,
>)
    ensures
        lifted(r) == tailscale_setup_of(name@, config@, key_path@),
{
    let auth_key = match &config.tailscale {
        Some(t) => match &t.auth_key {
            Some(k) => k,
            None => {
                return Ok(script0());
            },
        },
        None => {
            return Ok(script0());
        },
    };
    if auth_key.as_str().as_bytes().len() <= 16 {
        return Err(Failure::about(FailureKind::ConfigInvalid, "Tailscale auth key is too short"));
    }
    let guest_ip = join2(name, ".firecracker");
    let commands = commands_for(name, auth_key.as_str(), config);
    let mut steps = steps0();
    let mut i: usize = 0;
    while i < commands.len()
        invariant
            i <= commands.len(),
            steps.deep_view() == ssh_steps_upto(
                key_path@,
                guest_ip@,
                commands.deep_view(),
                i as int,
            ),
        decreases commands.len() - i,
    {
        assert(commands.deep_view()[i as int] == commands[i as int]@);
        push_step(
            &mut steps,
            Step::run(run_ssh_command(key_path, guest_ip.as_str(), commands[i].as_str())),
        );
        i += 1;
    }
    let mut script = script0();
    push_block(&mut script, Block::always(steps));
    Ok(script)
}

} // verus!
