use slurm_default_account::driver::{start, step, Action, CommandResult, Event, Outcome, State};

fn ok_output(stdout: &[u8]) -> CommandResult {
    CommandResult {
        success: true,
        status: "exit status: 0".to_owned(),
        stdout: stdout.to_vec(),
        stderr: Vec::new(),
    }
}

fn failed_output(stdout: &[u8], stderr: &[u8]) -> CommandResult {
    CommandResult {
        success: false,
        status: "exit status: 1".to_owned(),
        stdout: stdout.to_vec(),
        stderr: stderr.to_vec(),
    }
}

fn identities(invoker: &str, effective: &str) -> Event {
    Event::Identities {
        invoker: Some(invoker.to_owned()),
        effective: Some(effective.to_owned()),
    }
}

fn args_of(action: &Action) -> Vec<String> {
    match action {
        Action::RunAuthority { args } => args.clone(),
        Action::Finish { .. } => panic!("expected a command, got a finish"),
    }
}

const USER_JSON: &[u8] = br#"{"users":[{"default":{"account":"lab_a"}}]}"#;
const ASSOC_JSON: &[u8] = br#"{"associations":[{"account":"lab_a"},{"account":"lab_b"}]}"#;

fn run_to_decision(arg_vec: Vec<String>) -> (State, Action) {
    let s = start(arg_vec);
    let (s, a) = step(s, identities("alice", "slurm"));
    assert_eq!(
        args_of(&a),
        vec!["--json", "show", "user", "where", "name=alice"]
    );
    let (s, a) = step(
        s,
        Event::Authority { output: ok_output(USER_JSON) },
    );
    assert_eq!(
        args_of(&a),
        vec!["--json", "show", "association", "where", "user=alice"]
    );
    step(s, Event::Authority { output: ok_output(ASSOC_JSON) })
}

#[test]
fn requesting_the_default_is_a_noop() {
    let (_, action) = run_to_decision(vec!["prog".to_owned(), "lab_a".to_owned()]);
    match action {
        Action::Finish { outcome: Outcome::Success { message } } => {
            assert_eq!(message, "this account is already the default.");
        }
        _ => panic!("expected a successful finish without a mutation"),
    }
}

#[test]
fn requesting_an_unassociated_account_aborts() {
    let (_, action) = run_to_decision(vec!["prog".to_owned(), "lab_c".to_owned()]);
    match action {
        Action::Finish { outcome: Outcome::Failure { message } } => {
            assert_eq!(
                message,
                "invalid account name: \"lab_c\"\n\n\
                 exactly one argument required (account name).\n\
                 current default account name for this user: \"lab_a\"\n\
                 valid account names for this user: [\"lab_a\", \"lab_b\"]\n"
            );
        }
        _ => panic!("expected a failing finish without a mutation"),
    }
}

#[test]
fn requesting_another_associated_account_mutates_once() {
    let (s, action) = run_to_decision(vec!["prog".to_owned(), "lab_b".to_owned()]);
    assert_eq!(
        args_of(&action),
        vec![
            "modify",
            "--immediate",
            "user",
            "where",
            "name=alice",
            "set",
            "defaultAccount=lab_b"
        ]
    );
    let confirmation = b"Modified users...\n  alice\n";
    let (_, action) = step(s, Event::Authority { output: ok_output(confirmation) });
    match action {
        Action::Finish { outcome: Outcome::Success { message } } => {
            assert_eq!(message, "Modified users...\n  alice\n");
        }
        _ => panic!("expected the authority's confirmation to be surfaced"),
    }
}

#[test]
fn failed_mutation_aborts_with_the_raw_diagnostic() {
    let (s, _) = run_to_decision(vec!["prog".to_owned(), "lab_b".to_owned()]);
    let (s2, action) = step(
        s,
        Event::Authority { output: failed_output(b"nothing modified", b"permission denied\n") },
    );
    match action {
        Action::Finish { outcome: Outcome::Failure { message } } => {
            assert_eq!(
                message,
                "command failed!\nexit status: 1\nstdout:\nnothing modified\nstderr:\npermission denied\n\n"
            );
        }
        _ => panic!("expected a failing finish"),
    }
    // Once done, no event brings another external call.
    let (_, action) = step(s2, Event::Authority { output: ok_output(b"{}") });
    assert!(matches!(action, Action::Finish { .. }));
}

#[test]
fn missing_argument_aborts_with_the_help_text() {
    let (_, action) = run_to_decision(vec!["prog".to_owned()]);
    match action {
        Action::Finish { outcome: Outcome::Failure { message } } => {
            assert_eq!(
                message,
                "exactly one argument required (account name).\n\
                 current default account name for this user: \"lab_a\"\n\
                 valid account names for this user: [\"lab_a\", \"lab_b\"]\n"
            );
        }
        _ => panic!("expected a failing finish"),
    }
}

#[test]
fn extra_arguments_abort_with_the_help_text() {
    let (_, action) = run_to_decision(vec![
        "prog".to_owned(),
        "lab_b".to_owned(),
        "lab_a".to_owned(),
    ]);
    match action {
        Action::Finish { outcome: Outcome::Failure { message } } => {
            assert!(message.starts_with("exactly one argument required"));
        }
        _ => panic!("expected a failing finish"),
    }
}

#[test]
fn wrong_effective_identity_aborts_before_any_call() {
    let s = start(vec!["prog".to_owned(), "lab_b".to_owned()]);
    let (s, action) = step(s, identities("alice", "nobody"));
    match action {
        Action::Finish { outcome: Outcome::Failure { message } } => {
            assert_eq!(message, "This binary must be owned by \"slurm\" with the suid bit set!");
        }
        _ => panic!("expected a failing finish and no external call"),
    }
    assert!(matches!(s, State::Done));
}

#[test]
fn superuser_invocation_aborts_before_any_call() {
    let s = start(vec!["prog".to_owned(), "lab_b".to_owned()]);
    let (s, action) = step(s, identities("root", "slurm"));
    match action {
        Action::Finish { outcome: Outcome::Failure { message } } => {
            assert_eq!(message, "This program must not be run as root!");
        }
        _ => panic!("expected a failing finish and no external call"),
    }
    assert!(matches!(s, State::Done));
}

#[test]
fn unresolved_identity_aborts() {
    let s = start(vec!["prog".to_owned(), "lab_b".to_owned()]);
    let (_, action) = step(
        s,
        Event::Identities { invoker: None, effective: Some("slurm".to_owned()) },
    );
    match action {
        Action::Finish { outcome: Outcome::Failure { message } } => {
            assert_eq!(message, "could not resolve the invoking user id to a username.");
        }
        _ => panic!("expected a failing finish"),
    }
}

#[test]
fn failed_user_query_aborts_with_the_raw_diagnostic() {
    let s = start(vec!["prog".to_owned(), "lab_b".to_owned()]);
    let (s, _) = step(s, identities("alice", "slurm"));
    let (_, action) = step(
        s,
        Event::Authority { output: failed_output(b"", b"sacctmgr: error\n") },
    );
    match action {
        Action::Finish { outcome: Outcome::Failure { message } } => {
            assert_eq!(
                message,
                "command failed!\nexit status: 1\nstdout:\n\nstderr:\nsacctmgr: error\n\n"
            );
        }
        _ => panic!("expected a failing finish"),
    }
}

#[test]
fn unreadable_user_record_aborts() {
    let s = start(vec!["prog".to_owned(), "lab_b".to_owned()]);
    let (s, _) = step(s, identities("alice", "slurm"));
    let (_, action) = step(
        s,
        Event::Authority { output: ok_output(br#"{"users":[{},{}]}"#) },
    );
    match action {
        Action::Finish { outcome: Outcome::Failure { message } } => {
            assert_eq!(message, "exactly 1 user must be found with given name.");
        }
        _ => panic!("expected a failing finish"),
    }
}

#[test]
fn confirmation_text_survives_lossy_decoding() {
    let (s, _) = run_to_decision(vec!["prog".to_owned(), "lab_b".to_owned()]);
    let (_, action) = step(
        s,
        Event::Authority { output: ok_output(&[b'o', b'k', 0xff]) },
    );
    match action {
        Action::Finish { outcome: Outcome::Success { message } } => {
            assert_eq!(message, "ok\u{fffd}");
        }
        _ => panic!("expected a successful finish"),
    }
}

#[test]
fn mismatched_event_fails_closed() {
    let (_, action) = step(State::Done, identities("alice", "slurm"));
    match action {
        Action::Finish { outcome: Outcome::Failure { message } } => {
            assert_eq!(message, "internal error: unexpected event for the tool's current step.");
        }
        _ => panic!("expected a failing finish"),
    }
}
