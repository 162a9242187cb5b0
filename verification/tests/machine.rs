use fireup::command::HostCommand;
use fireup::error::{Failure, FailureKind};
use fireup::machine::{advance, ask, judge, Cursor, Ending, Place, Reply, Request, Verdict};
use fireup::script::{Block, Condition, Poll, Probe, Step};

fn strings(items: &[&str]) -> Vec<String> {
    items.iter().map(|s| s.to_string()).collect()
}

fn cmd(program: &str, args: &[&str]) -> HostCommand {
    HostCommand::capture(program, strings(args), false)
}

fn show(request: &Request) -> String {
    match request {
        Request::Exec { command } => {
            format!("exec {} {}", command.program, command.args.join(" "))
        }
        Request::Exists { path } => format!("exists {}", path),
        Request::Perform { step } => format!("perform {:?}", step),
        Request::Sleep { millis } => format!("sleep {}", millis),
        Request::Stop { ending } => format!("stop {:?}", ending),
    }
}

/// Walks `script`, answering each request with `host`, and returns what was
/// asked, in order, and how the script ended.
fn drive(script: &Vec<Block>, host: &mut dyn FnMut(&Request) -> Reply) -> (Vec<String>, Ending) {
    let mut trace = Vec::new();
    let (mut cursor, mut request) = advance(script, Cursor::start(), &Reply::Begin);
    for _ in 0..100_000 {
        if let Request::Stop { ending } = request {
            return (trace, ending);
        }
        trace.push(show(&request));
        let reply = host(&request);
        let next = advance(script, cursor, &reply);
        cursor = next.0;
        request = next.1;
    }
    panic!("the script did not end");
}

fn ok() -> Reply {
    Reply::Done { result: Ok(String::new()) }
}

fn out(text: &str) -> Reply {
    Reply::Done { result: Ok(text.to_string()) }
}

fn failed(program: &str) -> Reply {
    Reply::Done {
        result: Err(Failure::with_detail(FailureKind::ExternalCommandFailed, program, Some(1), "boom")),
    }
}

#[test]
fn empty_script_completes_at_once() {
    let (trace, ending) = drive(&vec![], &mut |_| ok());
    assert!(trace.is_empty());
    assert_eq!(ending, Ending::Completed);
    let (cursor, request) = advance(&vec![], Cursor::start(), &Reply::Begin);
    assert_eq!(cursor, Cursor { block: 0, place: Place::End });
    assert_eq!(request, Request::Stop { ending: Ending::Completed });
}

#[test]
fn blocks_without_steps_are_passed_over() {
    let script = vec![
        Block::always(vec![]),
        Block::always(vec![]),
        Block::always(vec![Step::run(cmd("true", &[]))]),
        Block::always(vec![]),
    ];
    let (trace, ending) = drive(&script, &mut |_| ok());
    assert_eq!(trace, vec!["exec true "]);
    assert_eq!(ending, Ending::Completed);
}

#[test]
fn steps_run_in_order_and_a_failure_ends_the_script() {
    let script = vec![Block::always(vec![
        Step::run(cmd("a", &[])),
        Step::run(cmd("b", &[])),
        Step::run(cmd("c", &[])),
    ])];
    let (trace, ending) = drive(&script, &mut |_| ok());
    assert_eq!(trace, vec!["exec a ", "exec b ", "exec c "]);
    assert_eq!(ending, Ending::Completed);

    let (trace, ending) = drive(&script, &mut |r| match r {
        Request::Exec { command } if command.program == "b" => failed("b"),
        _ => ok(),
    });
    assert_eq!(trace, vec!["exec a ", "exec b "]);
    match ending {
        Ending::Failed { error } => {
            assert_eq!(error.kind, FailureKind::ExternalCommandFailed);
            assert_eq!(error.subject, "b");
            assert_eq!(error.code, Some(1));
        }
        other => panic!("unexpected ending {:?}", other),
    }
}

#[test]
fn a_tried_command_never_ends_the_script() {
    let script = vec![Block::always(vec![
        Step::attempt(cmd("ln", &["-s"])),
        Step::run(cmd("after", &[])),
    ])];
    let (trace, ending) = drive(&script, &mut |r| match r {
        Request::Exec { command } if command.program == "ln" => failed("ln"),
        _ => ok(),
    });
    assert_eq!(trace, vec!["exec ln -s", "exec after "]);
    assert_eq!(ending, Ending::Completed);
}

#[test]
fn file_steps_are_performed_and_their_failure_is_fatal() {
    let write = Step::WriteFile { path: "/tmp/x".into(), content: "c".into() };
    let script = vec![Block::always(vec![write.clone(), Step::run(cmd("after", &[]))])];
    let mut seen = Vec::new();
    let (_, ending) = drive(&script, &mut |r| {
        if let Request::Perform { step } = r {
            seen.push(step.clone());
        }
        ok()
    });
    assert_eq!(seen, vec![write]);
    assert_eq!(ending, Ending::Completed);
    let (trace, ending) = drive(&script, &mut |r| match r {
        Request::Perform { .. } => failed("write"),
        _ => ok(),
    });
    assert_eq!(trace.len(), 1);
    assert!(matches!(ending, Ending::Failed { .. }));
}

#[test]
fn condition_chooses_between_steps_and_otherwise() {
    let script = vec![Block::either(
        Condition::present("/key"),
        vec![Step::run(cmd("copy", &[]))],
        vec![Step::run(cmd("generate", &[])), Step::run(cmd("copy", &[]))],
    )];
    let (trace, _) = drive(&script, &mut |r| match r {
        Request::Exists { .. } => Reply::Exists { found: true },
        _ => ok(),
    });
    assert_eq!(trace, vec!["exists /key", "exec copy "]);
    let (trace, _) = drive(&script, &mut |r| match r {
        Request::Exists { .. } => Reply::Exists { found: false },
        _ => ok(),
    });
    assert_eq!(trace, vec!["exists /key", "exec generate ", "exec copy "]);
}

#[test]
fn absent_and_fails_are_the_negations() {
    let script = vec![
        Block::provided(Condition::absent("/img"), vec![Step::run(cmd("pack", &[]))]),
        Block::provided(Condition::fails(cmd("which", &["sshd"])), vec![Step::run(cmd("install", &[]))]),
        Block::provided(Condition::succeeds(cmd("which", &["sshd"])), vec![Step::run(cmd("enable", &[]))]),
    ];
    let (trace, _) = drive(&script, &mut |r| match r {
        Request::Exists { .. } => Reply::Exists { found: true },
        Request::Exec { command } if command.program == "which" => failed("which"),
        _ => ok(),
    });
    assert_eq!(trace, vec!["exists /img", "exec which sshd", "exec install ", "exec which sshd"]);
    let (trace, _) = drive(&script, &mut |r| match r {
        Request::Exists { .. } => Reply::Exists { found: false },
        _ => ok(),
    });
    assert_eq!(trace, vec!["exists /img", "exec pack ", "exec which sshd", "exec which sshd", "exec enable "]);
}

#[test]
fn second_condition_is_examined_only_if_the_first_holds() {
    let script = vec![
        Block::provided_both(
            Condition::succeeds(cmd("first", &[])),
            Condition::succeeds(cmd("second", &[])),
            vec![Step::Halt],
        ),
        Block::always(vec![Step::run(cmd("rest", &[]))]),
    ];
    let (trace, ending) = drive(&script, &mut |r| match r {
        Request::Exec { command } if command.program == "first" => failed("first"),
        _ => ok(),
    });
    assert_eq!(trace, vec!["exec first ", "exec rest "]);
    assert_eq!(ending, Ending::Completed);
    let (trace, ending) = drive(&script, &mut |_| ok());
    assert_eq!(trace, vec!["exec first ", "exec second "]);
    assert_eq!(ending, Ending::Halted);
    let (trace, ending) = drive(&script, &mut |r| match r {
        Request::Exec { command } if command.program == "second" => failed("second"),
        _ => ok(),
    });
    assert_eq!(trace, vec!["exec first ", "exec second ", "exec rest "]);
    assert_eq!(ending, Ending::Completed);
}

#[test]
fn abort_ends_the_script_with_its_failure() {
    let script = vec![
        Block::provided(
            Condition::fails(cmd("which", &["coredns"])),
            vec![Step::Abort { error: Failure::about(FailureKind::MissingHostTool, "CoreDNS") }],
        ),
        Block::always(vec![Step::run(cmd("never", &[]))]),
    ];
    let (trace, ending) = drive(&script, &mut |_| failed("which"));
    assert_eq!(trace, vec!["exec which coredns"]);
    assert_eq!(
        ending,
        Ending::Failed { error: Failure::about(FailureKind::MissingHostTool, "CoreDNS") }
    );
}

#[test]
fn output_probes_read_the_commands_output() {
    let contains = Condition {
        probe: Probe::OutputContains { command: cmd("file", &["k"]), needle: "bzImage".into() },
        expect: true,
    };
    let is_one = Condition {
        probe: Probe::OutputIs { command: cmd("cat", &["f"]), text: "1".into() },
        expect: false,
    };
    let script = vec![
        Block::provided(contains, vec![Step::run(cmd("extract", &[]))]),
        Block::provided(is_one, vec![Step::run(cmd("sysctl", &[]))]),
    ];
    let (trace, _) = drive(&script, &mut |r| match r {
        Request::Exec { command } if command.program == "file" => out("k: Linux kernel x86 boot executable bzImage"),
        Request::Exec { command } if command.program == "cat" => out("0\n"),
        _ => ok(),
    });
    assert_eq!(trace, vec!["exec file k", "exec extract ", "exec cat f", "exec sysctl "]);
    let (trace, _) = drive(&script, &mut |r| match r {
        Request::Exec { command } if command.program == "file" => out("k: ELF 64-bit LSB executable"),
        Request::Exec { command } if command.program == "cat" => out(" 1\n"),
        _ => ok(),
    });
    assert_eq!(trace, vec!["exec file k", "exec cat f"]);
    let (trace, ending) = drive(&script, &mut |_| failed("file"));
    assert_eq!(trace, vec!["exec file k"]);
    assert!(matches!(ending, Ending::Failed { .. }));
}

fn keys_script(keys: &[&str]) -> Vec<Block> {
    vec![Block::provided(
        Condition {
            probe: Probe::KeysDiffer { path: "/r/root/.ssh/authorized_keys".into(), keys: strings(keys) },
            expect: true,
        },
        vec![Step::run(cmd("rm", &["-f", "img"]))],
    )]
}

#[test]
fn keys_differ_when_the_file_is_absent() {
    let (trace, _) = drive(&keys_script(&["ssh-ed25519 AAA a"]), &mut |r| match r {
        Request::Exec { command } if command.program == "test" => failed("test"),
        _ => ok(),
    });
    assert_eq!(trace, vec!["exec test -e /r/root/.ssh/authorized_keys", "exec rm -f img"]);
}

#[test]
fn keys_differ_by_digest_of_the_installed_file() {
    let same = |r: &Request| match r {
        Request::Exec { command } if command.program == "cat" => out("ssh-ed25519 AAA a\n"),
        _ => ok(),
    };
    let script = keys_script(&["ssh-ed25519 AAA a"]);
    let (trace, _) = drive(&script, &mut { same });
    assert_eq!(
        trace,
        vec!["exec test -e /r/root/.ssh/authorized_keys", "exec cat /r/root/.ssh/authorized_keys"]
    );
    let (trace, _) = drive(&keys_script(&["ssh-ed25519 BBB b"]), &mut { same });
    assert_eq!(trace.len(), 3);
    assert_eq!(trace[2], "exec rm -f img");
    let (trace, ending) = drive(&script, &mut |r| match r {
        Request::Exec { command } if command.program == "cat" => failed("cat"),
        _ => ok(),
    });
    assert_eq!(trace.len(), 2);
    assert!(matches!(ending, Ending::Failed { .. }));
}

fn wait(tries: Option<u32>, pause_first: bool, pause_last: bool, on_timeout: Option<Failure>) -> Vec<Block> {
    vec![Block::always(vec![
        Step::Await {
            poll: Poll {
                probe: Probe::PathExists { path: "/sock".into() },
                expect: true,
                pause_first,
                interval_ms: 500,
                tries,
                pause_last,
                on_timeout,
            },
        },
        Step::run(cmd("after", &[])),
    ])]
}

fn count(trace: &[String], what: &str) -> usize {
    trace.iter().filter(|t| t.starts_with(what)).count()
}

#[test]
fn wait_ends_as_soon_as_the_probe_answers_as_wanted() {
    let mut left = 3;
    let (trace, ending) = drive(&wait(Some(101), false, false, None), &mut |r| match r {
        Request::Exists { .. } => {
            left -= 1;
            Reply::Exists { found: left == 0 }
        }
        _ => ok(),
    });
    assert_eq!(trace, vec!["exists /sock", "sleep 500", "exists /sock", "sleep 500", "exists /sock", "exec after "]);
    assert_eq!(ending, Ending::Completed);
}

#[test]
fn wait_for_the_socket_tries_101_times_with_100_pauses_then_fails() {
    let timeout = Failure::new(FailureKind::HypervisorStartTimeout);
    let script = wait(Some(101), false, false, Some(timeout.clone()));
    let (trace, ending) = drive(&script, &mut |r| match r {
        Request::Exists { .. } => Reply::Exists { found: false },
        _ => ok(),
    });
    assert_eq!(count(&trace, "exists"), 101);
    assert_eq!(count(&trace, "sleep"), 100);
    assert_eq!(count(&trace, "exec"), 0);
    assert_eq!(ending, Ending::Failed { error: timeout });
}

#[test]
fn wait_that_may_run_out_goes_on_after_its_last_pause() {
    let script = wait(Some(30), false, true, None);
    let (trace, ending) = drive(&script, &mut |r| match r {
        Request::Exists { .. } => Reply::Exists { found: false },
        _ => ok(),
    });
    assert_eq!(count(&trace, "exists"), 30);
    assert_eq!(count(&trace, "sleep"), 30);
    assert_eq!(trace.last().unwrap(), "exec after ");
    assert_eq!(ending, Ending::Completed);
}

#[test]
fn wait_can_pause_before_its_first_try_and_go_on_for_ever() {
    let mut asked = 0;
    let (trace, _) = drive(&wait(None, true, false, None), &mut |r| match r {
        Request::Exists { .. } => {
            asked += 1;
            Reply::Exists { found: asked == 1000 }
        }
        _ => ok(),
    });
    assert_eq!(trace[0], "sleep 500");
    assert_eq!(count(&trace, "exists"), 1000);
    assert_eq!(count(&trace, "sleep"), 1000);
}

#[test]
fn wait_without_tries_runs_out_at_once() {
    let (trace, ending) = drive(&wait(Some(0), true, true, None), &mut |_| ok());
    assert_eq!(trace, vec!["exec after "]);
    assert_eq!(ending, Ending::Completed);
    let timeout = Failure::new(FailureKind::GuestDhcpTimeout);
    let (trace, ending) = drive(&wait(Some(0), false, false, Some(timeout.clone())), &mut |_| ok());
    assert!(trace.is_empty());
    assert_eq!(ending, Ending::Failed { error: timeout });
}

#[test]
fn replies_out_of_turn_end_the_script() {
    let script = vec![Block::always(vec![Step::run(cmd("a", &[]))])];
    let stray = Cursor { block: 0, place: Place::Step { met: true, step: 7 } };
    let (_, request) = advance(&script, stray, &ok());
    assert!(matches!(request, Request::Stop { ending: Ending::Failed { .. } }));
    let stray = Cursor { block: 9, place: Place::Test { condition: 0, second: false } };
    let (_, request) = advance(&script, stray, &ok());
    assert!(matches!(request, Request::Stop { ending: Ending::Failed { .. } }));
    let done = Cursor { block: 1, place: Place::End };
    let (_, request) = advance(&script, done, &ok());
    assert_eq!(request, Request::Stop { ending: Ending::Completed });
}

#[test]
fn a_probe_can_be_asked_and_judged_on_its_own() {
    let probe = Probe::KeysDiffer { path: "/f".into(), keys: strings(&["k"]) };
    assert_eq!(show(&ask(&probe, false)), "exec test -e /f");
    assert_eq!(show(&ask(&probe, true)), "exec cat /f");
    assert_eq!(judge(&probe, false, &ok()), Verdict::Again);
    assert_eq!(judge(&probe, false, &failed("test")), Verdict::Answer { yes: true });
    assert_eq!(judge(&probe, true, &out("k\n")), Verdict::Answer { yes: false });
    assert_eq!(judge(&probe, true, &out("other\n")), Verdict::Answer { yes: true });
    assert!(matches!(judge(&probe, true, &failed("cat")), Verdict::Fatal { .. }));
    assert!(matches!(judge(&probe, true, &Reply::Begin), Verdict::Fatal { .. }));
    let exists = Probe::PathExists { path: "/p".into() };
    assert_eq!(show(&ask(&exists, false)), "exists /p");
    assert_eq!(judge(&exists, false, &Reply::Exists { found: true }), Verdict::Answer { yes: true });
    assert_eq!(judge(&exists, false, &Reply::Exists { found: false }), Verdict::Answer { yes: false });
    let runs = Probe::Succeeds { command: cmd("pgrep", &["-x", "firecracker"]) };
    assert_eq!(judge(&runs, false, &ok()), Verdict::Answer { yes: true });
    assert_eq!(judge(&runs, false, &failed("pgrep")), Verdict::Answer { yes: false });
}
