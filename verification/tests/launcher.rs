use pls::audit::{denial_message, format_audit_line};
use pls::invocation::{parse_invocation, Invocation};
use pls::pipeline::{start, step, Action, Event, Phase};
use pls::policy::Policy;

fn strings(items: &[&str]) -> Vec<String> {
    items.iter().map(|s| (*s).to_string()).collect()
}

fn policy(users: &[&str], log: Option<&str>) -> Policy {
    Policy { superusers: strings(users), log_file: log.map(|s| s.to_string()) }
}

fn invocation(program: &str, args: &[&str]) -> Invocation {
    Invocation { program: program.to_string(), args: strings(args) }
}

#[test]
fn zero_tokens_is_a_usage_error_before_anything_runs() {
    let (phase, action) = start(Vec::new());
    assert!(matches!(phase, Phase::Stopped));
    assert!(matches!(action, Action::PrintUsage));
    // Nothing follows a stop: no policy load, lookup, audit or execution.
    let (phase, action) = step(phase, Event::PolicyLoaded(Some(policy(&["alice"], None))));
    assert!(matches!(phase, Phase::Stopped));
    assert!(matches!(action, Action::Fail(_)));
}

#[test]
fn start_splits_program_and_arguments() {
    let (phase, action) = start(strings(&["/bin/echo", "hello", "world"]));
    assert!(matches!(action, Action::LoadPolicy));
    match phase {
        Phase::NeedPolicy { inv } => {
            assert_eq!(inv.program, "/bin/echo");
            assert_eq!(inv.args, strings(&["hello", "world"]));
        }
        _ => panic!("expected the policy stage"),
    }
}

#[test]
fn parse_invocation_rejects_empty_token_list() {
    assert!(parse_invocation(Vec::new()).is_none());
    let inv = parse_invocation(strings(&["/usr/bin/id"])).unwrap();
    assert_eq!(inv.program, "/usr/bin/id");
    assert!(inv.args.is_empty());
}

#[test]
fn policy_load_failure_is_fatal_and_never_audited() {
    let (phase, _) = start(strings(&["/bin/echo", "hi"]));
    let (phase, action) = step(phase, Event::PolicyLoaded(None));
    assert!(matches!(phase, Phase::Stopped));
    match action {
        Action::Fail(m) => assert_eq!(m, "could not load the policy file"),
        _ => panic!("expected a failure report"),
    }
    let (_, action) = step(phase, Event::IdentityResolved(Some("alice".to_string())));
    assert!(matches!(action, Action::Fail(_)));
}

#[test]
fn unresolved_identity_is_fatal() {
    let (phase, _) = start(strings(&["/bin/echo", "hi"]));
    let (phase, _) = step(phase, Event::PolicyLoaded(Some(policy(&["alice"], None))));
    let (phase, action) = step(phase, Event::IdentityResolved(None));
    assert!(matches!(phase, Phase::Stopped));
    match action {
        Action::Fail(m) => assert_eq!(m, "could not resolve the calling user"),
        _ => panic!("expected a failure report"),
    }
}

#[test]
fn allowed_caller_is_audited_elevated_and_executed_in_order() {
    let (phase, action) = start(strings(&["/bin/echo", "hello", "world"]));
    assert!(matches!(action, Action::LoadPolicy));
    let (phase, action) = step(phase, Event::PolicyLoaded(Some(policy(&["alice"], Some("pls.log")))));
    assert!(matches!(action, Action::ResolveIdentity));
    let (phase, action) = step(phase, Event::IdentityResolved(Some("alice".to_string())));
    match &action {
        Action::AppendAudit(path, line) => {
            assert_eq!(path, "pls.log");
            assert_eq!(line, "alice: /bin/echo hello world");
        }
        _ => panic!("expected the audit append before any privilege change"),
    }
    let (phase, action) = step(phase, Event::AuditWritten(true));
    assert!(matches!(action, Action::Elevate));
    let (_, action) = step(phase, Event::Elevated(true));
    match action {
        Action::Exec(program, args) => {
            assert_eq!(program, "/bin/echo");
            assert_eq!(args, strings(&["hello", "world"]));
        }
        _ => panic!("expected the process replacement after elevation"),
    }
}

#[test]
fn denied_caller_is_named_and_nothing_follows() {
    let (phase, _) = start(strings(&["/bin/echo", "hi"]));
    let (phase, _) = step(phase, Event::PolicyLoaded(Some(policy(&["alice"], Some("pls.log")))));
    let (phase, action) = step(phase, Event::IdentityResolved(Some("bob".to_string())));
    assert!(matches!(phase, Phase::Stopped));
    match action {
        Action::Deny(m) => {
            assert!(m.contains("bob"));
            assert_eq!(
                m,
                "You (bob) are not in the superusers list. \
                 Contact your system administrator if this is a mistake."
            );
        }
        _ => panic!("expected the denial"),
    }
    // No audit write, elevation or execution ever follows the denial.
    let (_, action) = step(phase, Event::AuditWritten(true));
    assert!(matches!(action, Action::Fail(_)));
}

#[test]
fn membership_is_case_sensitive_and_exact() {
    let p = policy(&["alice", "carol"], None);
    assert!(p.permits(&"alice".to_string()));
    assert!(p.permits(&"carol".to_string()));
    assert!(!p.permits(&"Alice".to_string()));
    assert!(!p.permits(&"alic".to_string()));
    assert!(!p.permits(&"alicex".to_string()));
    assert!(!p.permits(&"bob".to_string()));
    let empty = policy(&[], None);
    assert!(!empty.permits(&"alice".to_string()));
}

#[test]
fn audit_line_joins_arguments_with_single_spaces() {
    let user = "alice".to_string();
    let line = format_audit_line(&user, &invocation("/bin/echo", &["hello", "world"]));
    assert_eq!(line, "alice: /bin/echo hello world");
    let line = format_audit_line(&user, &invocation("/bin/ls", &["-l"]));
    assert_eq!(line, "alice: /bin/ls -l");
}

#[test]
fn audit_line_without_arguments_keeps_the_trailing_space() {
    let user = "alice".to_string();
    let line = format_audit_line(&user, &invocation("/bin/true", &[]));
    assert_eq!(line, "alice: /bin/true ");
}

#[test]
fn denial_message_names_the_rejected_user() {
    let m = denial_message(&"mallory".to_string());
    assert_eq!(
        m,
        "You (mallory) are not in the superusers list. \
         Contact your system administrator if this is a mistake."
    );
}

#[test]
fn absent_log_path_makes_auditing_a_no_op() {
    let (phase, _) = start(strings(&["/bin/echo", "hi"]));
    let (phase, _) = step(phase, Event::PolicyLoaded(Some(policy(&["alice"], None))));
    let (phase, action) = step(phase, Event::IdentityResolved(Some("alice".to_string())));
    assert!(matches!(action, Action::Elevate));
    assert!(matches!(phase, Phase::NeedElevation { .. }));
}

#[test]
fn audit_write_failure_stops_before_elevation() {
    let (phase, _) = start(strings(&["/bin/echo", "hi"]));
    let (phase, _) = step(phase, Event::PolicyLoaded(Some(policy(&["alice"], Some("pls.log")))));
    let (phase, _) = step(phase, Event::IdentityResolved(Some("alice".to_string())));
    let (phase, action) = step(phase, Event::AuditWritten(false));
    assert!(matches!(phase, Phase::Stopped));
    match action {
        Action::Fail(m) => assert_eq!(m, "could not write the audit log"),
        _ => panic!("expected a failure report"),
    }
}

#[test]
fn elevation_failure_is_fatal_after_the_audit_but_before_execution() {
    let (phase, _) = start(strings(&["/bin/echo", "hi"]));
    let (phase, _) = step(phase, Event::PolicyLoaded(Some(policy(&["alice"], Some("pls.log")))));
    let (phase, action) = step(phase, Event::IdentityResolved(Some("alice".to_string())));
    // The audit line was already asked for ...
    assert!(matches!(action, Action::AppendAudit(_, _)));
    let (phase, _) = step(phase, Event::AuditWritten(true));
    // ... and the failed transition stops the launcher before any execution.
    let (phase, action) = step(phase, Event::Elevated(false));
    assert!(matches!(phase, Phase::Stopped));
    match action {
        Action::Fail(m) => assert_eq!(m, "setuid failed. You need root privileges."),
        _ => panic!("expected a failure report"),
    }
    let (_, action) = step(phase, Event::ExecReturned);
    assert!(matches!(action, Action::Fail(_)));
}

#[test]
fn failed_execution_reports_generically() {
    let (phase, _) = start(strings(&["/no/such/program"]));
    let (phase, _) = step(phase, Event::PolicyLoaded(Some(policy(&["alice"], None))));
    let (phase, _) = step(phase, Event::IdentityResolved(Some("alice".to_string())));
    let (phase, _) = step(phase, Event::Elevated(true));
    let (phase, action) = step(phase, Event::ExecReturned);
    assert!(matches!(phase, Phase::Stopped));
    match action {
        Action::Fail(m) => assert_eq!(m, "Command failed"),
        _ => panic!("expected a failure report"),
    }
}

#[test]
fn mismatched_events_stop_the_machine() {
    let (phase, _) = start(strings(&["/bin/echo"]));
    let (phase, action) = step(phase, Event::Elevated(true));
    assert!(matches!(phase, Phase::Stopped));
    assert!(matches!(action, Action::Fail(_)));
}
