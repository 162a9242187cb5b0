//! Host command runner: how an external program is to be invoked, with or
//! without privilege elevation, and how its exit is judged.  Starting the
//! program is left to the caller; everything decided about it is decided here.

use vstd::prelude::*;
use vstd::string::*;
use crate::error::{Failure, FailureKind, FailureView};

verus! {

/// What becomes of the program's standard streams.
#[derive(Clone, Copy, Debug, PartialEq, Eq, Structural)]
pub enum OutputMode {
    /// Standard output and error are collected; the caller waits.
    Capture,
    /// The program shares the caller's streams; the caller waits.
    Stream,
    /// The program is detached from every stream; the caller gets its
    /// process id at once and does not wait.
    Background,
}

/// An external program with its arguments, whether it needs privilege, and
/// how its output is handled.
#[derive(Clone, Debug, PartialEq, Eq)]
pub struct HostCommand {
    pub program: String,
    pub args: Vec<String>,
    pub sudo: bool,
    pub mode: OutputMode,
}

pub struct CommandView {
    pub program: Seq<char>,
    pub args: Seq<Seq<char>>,
    pub sudo: bool,
    pub mode: OutputMode,
}

impl View for HostCommand {
    type V = CommandView;

    open spec fn view(&self) -> CommandView {
        CommandView {
            program: self.program@,
            args: self.args.deep_view(),
            sudo: self.sudo,
            mode: self.mode,
        }
    }
}

impl DeepView for HostCommand {
    type V = CommandView;

    open spec fn deep_view(&self) -> CommandView {
        self@
    }
}

/// The caller's standing on the host.
#[derive(Clone, Copy, Debug, PartialEq, Eq, Structural)]
pub struct Privilege {
    /// The caller runs as user 0.
    pub is_root: bool,
    /// The privilege-elevation helper can be started.
    pub has_sudo: bool,
}

/// The argument vector to start, program first, and the stream handling.
#[derive(Clone, Debug, PartialEq, Eq)]
pub struct Invocation {
    pub argv: Vec<String>,
    pub mode: OutputMode,
}

pub struct InvocationView {
    pub argv: Seq<Seq<char>>,
    pub mode: OutputMode,
}

impl View for Invocation {
    type V = InvocationView;

    open spec fn view(&self) -> InvocationView {
        InvocationView { argv: self.argv.deep_view(), mode: self.mode }
    }
}

impl DeepView for Invocation {
    type V = InvocationView;

    open spec fn deep_view(&self) -> InvocationView {
        self@
    }
}

/// A captured command: `capture("ip", args, true)`.
pub open spec fn capture(program: Seq<char>, args: Seq<Seq<char>>, sudo: bool) -> CommandView {
    CommandView { program, args, sudo, mode: OutputMode::Capture }
}

/// A command that shares the caller's streams.
pub open spec fn stream(program: Seq<char>, args: Seq<Seq<char>>, sudo: bool) -> CommandView {
    CommandView { program, args, sudo, mode: OutputMode::Stream }
}

/// A detached command.
pub open spec fn background(program: Seq<char>, args: Seq<Seq<char>>, sudo: bool) -> CommandView {
    CommandView { program, args, sudo, mode: OutputMode::Background }
}

/// Privilege is asked for and cannot be had.
pub open spec fn refused(sudo: bool, privilege: Privilege) -> bool {
    sudo && !privilege.has_sudo && !privilege.is_root
}

/// The argument vector for `program` with `args`: behind the elevation
/// helper exactly when privilege is asked for by someone who is not root.
pub open spec fn argv_of(
    program: Seq<char>,
    args: Seq<Seq<char>>,
    sudo: bool,
    privilege: Privilege,
) -> Seq<Seq<char>> {
    if sudo && !privilege.is_root {
        seq!["sudo"@, program] + args
    } else {
        seq![program] + args
    }
}

/// What `invoke` answers for a command in the given mode.
pub open spec fn invocation_of(c: CommandView, privilege: Privilege) -> Result<
    InvocationView,
    FailureView,
> {
    if refused(c.sudo, privilege) {
        Err(crate::error::about(FailureKind::PrivilegeRequired, c.program))
    } else {
        Ok(InvocationView { argv: argv_of(c.program, c.args, c.sudo, privilege), mode: c.mode })
    }
}

/// What the exit of `program` amounts to: its standard output on success,
/// `ExternalCommandFailed` with the exit code and standard error otherwise.
pub open spec fn exit_of(
    program: Seq<char>,
    success: bool,
    code: Option<i32>,
    stdout: Seq<char>,
    stderr: Seq<char>,
) -> Result<Seq<char>, FailureView> {
    if success {
        Ok(stdout)
    } else {
        Err(
            FailureView {
                kind: FailureKind::ExternalCommandFailed,
                subject: program,
                code,
                detail: stderr,
            },
        )
    }
}

fn invoke(
    command: &str,
    args: &Vec<String>,
    use_sudo: bool,
    privilege: Privilege,
    mode: OutputMode,
) -> (r: Result<Invocation, Failure>)
    ensures
        r is Err == refused(use_sudo, privilege),
        r matches Err(e) ==> e@ == crate::error::about(FailureKind::PrivilegeRequired, command@),
        r matches Ok(inv) ==> inv@ == (InvocationView {
            argv: argv_of(command@, args.deep_view(), use_sudo, privilege),
            mode,
        }),
{
    if use_sudo && !privilege.has_sudo && !privilege.is_root {
        return Err(Failure::about(FailureKind::PrivilegeRequired, command));
    }
    let mut argv: Vec<String> = Vec::new();
    if use_sudo && !privilege.is_root {
        argv.push(String::from_str("sudo"));
    }
    argv.push(String::from_str(command));
    let ghost head = argv.deep_view();
    assert(head =~= if use_sudo && !privilege.is_root {
        seq!["sudo"@, command@]
    } else {
        seq![command@]
    });
    let mut i: usize = 0;
    while i < args.len()
        invariant
            i <= args.len(),
            argv.deep_view() == head + args.deep_view().take(i as int),
        decreases args.len() - i,
    {
        let ghost before = argv.deep_view();
        argv.push(args[i].clone());
        assert(argv.deep_view() =~= before.push(args[i as int]@));
        assert(args.deep_view().take(i + 1) =~= args.deep_view().take(i as int).push(
            args[i as int]@,
        ));
        assert(head + args.deep_view().take(i as int).push(args[i as int]@) =~= (head
            + args.deep_view().take(i as int)).push(args[i as int]@));
        i += 1;
    }
    assert(args.deep_view().take(args.len() as int) =~= args.deep_view());
    Ok(Invocation { argv, mode })
}

/// How to start `command` so that its output is collected.
///
/// Fails with `PrivilegeRequired` exactly when privilege is asked for, the
/// caller is not root and no elevation helper is at hand.
pub fn run_command(command: &str, args: &Vec<String>, use_sudo: bool, privilege: Privilege) -> (r:
    Result<Invocation, Failure>)
    ensures
        crate::error::lifted(r) == invocation_of(
            capture(command@, args.deep_view(), use_sudo),
            privilege,
        ),
{
    invoke(command, args, use_sudo, privilege, OutputMode::Capture)
}

/// How to start `command` on the caller's own streams.
pub fn run_command_with_stdout_inherit(
    command: &str,
    args: &Vec<String>,
    use_sudo: bool,
    privilege: Privilege,
) -> (r: Result<Invocation, Failure>)
    ensures
        crate::error::lifted(r) == invocation_of(
            stream(command@, args.deep_view(), use_sudo),
            privilege,
        ),
{
    invoke(command, args, use_sudo, privilege, OutputMode::Stream)
}

/// How to start `command` detached from every stream.
pub fn run_command_in_background(
    command: &str,
    args: &Vec<String>,
    use_sudo: bool,
    privilege: Privilege,
) -> (r: Result<Invocation, Failure>)
    ensures
        crate::error::lifted(r) == invocation_of(
            background(command@, args.deep_view(), use_sudo),
            privilege,
        ),
{
    invoke(command, args, use_sudo, privilege, OutputMode::Background)
}

impl HostCommand {
    pub fn new(program: &str, args: Vec<String>, sudo: bool, mode: OutputMode) -> (c: HostCommand)
        ensures
            c@ == (CommandView { program: program@, args: args.deep_view(), sudo, mode }),
    {
        HostCommand { program: String::from_str(program), args, sudo, mode }
    }

    pub fn capture(program: &str, args: Vec<String>, sudo: bool) -> (c: HostCommand)
        ensures
            c@ == capture(program@, args.deep_view(), sudo),
    {
        HostCommand::new(program, args, sudo, OutputMode::Capture)
    }

    pub fn stream(program: &str, args: Vec<String>, sudo: bool) -> (c: HostCommand)
        ensures
            c@ == stream(program@, args.deep_view(), sudo),
    {
        HostCommand::new(program, args, sudo, OutputMode::Stream)
    }

    pub fn background(program: &str, args: Vec<String>, sudo: bool) -> (c: HostCommand)
        ensures
            c@ == background(program@, args.deep_view(), sudo),
    {
        HostCommand::new(program, args, sudo, OutputMode::Background)
    }

    /// A copy of this command.
    pub fn duplicate(&self) -> (c: HostCommand)
        ensures
            c@ == self@,
    {
        let args = self.args.clone();
        HostCommand { program: self.program.clone(), args, sudo: self.sudo, mode: self.mode }
    }

    /// How to start this command, given the caller's standing.
    pub fn invocation(&self, privilege: Privilege) -> (r: Result<Invocation, Failure>)
        ensures
            crate::error::lifted(r) == invocation_of(self@, privilege),
    {
        match self.mode {
            OutputMode::Capture => run_command(
                self.program.as_str(),
                &self.args,
                self.sudo,
                privilege,
            ),
            OutputMode::Stream => run_command_with_stdout_inherit(
                self.program.as_str(),
                &self.args,
                self.sudo,
                privilege,
            ),
            OutputMode::Background => run_command_in_background(
                self.program.as_str(),
                &self.args,
                self.sudo,
                privilege,
            ),
        }
    }

    /// Judges the exit of this command: its standard output on success,
    /// `ExternalCommandFailed` with the code and standard error otherwise.
    pub fn outcome(&self, success: bool, code: Option<i32>, stdout: String, stderr: String) -> (r:
        Result<String, Failure>)
        ensures
            crate::error::lifted(r) == exit_of(self.program@, success, code, stdout@, stderr@),
    {
        if success {
            Ok(stdout)
        } else {
            Err(
                Failure {
                    kind: FailureKind::ExternalCommandFailed,
                    subject: self.program.clone(),
                    code,
                    detail: stderr,
                },
            )
        }
    }
}

} // verus!
