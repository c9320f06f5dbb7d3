use vstd::prelude::*;
use crate::audit::{audit_line, denial_text, format_audit_line, denial_message};
use crate::invocation::{Invocation, parse_invocation};
use crate::policy::{Policy, allowed};

verus! {

/// Where the launcher stands in its linear pipeline. Each phase names the
/// stage whose outcome it is waiting for; `Stopped` is the terminal failure
/// phase (the process exits non-zero). Successful execution never returns,
/// so it has no phase.
pub enum Phase {
    /// Waiting for the policy source to load the allow-list and log path.
    NeedPolicy { inv: Invocation },
    /// Waiting for the caller's identity, resolved from the real user id.
    NeedIdentity { inv: Invocation, policy: Policy },
    /// The caller is authorized and a log path exists; waiting for the audit
    /// line to be appended.
    NeedAudit { inv: Invocation, policy: Policy, user: String },
    /// Authorization (and auditing, where a log path exists) is complete;
    /// waiting for the privilege transition.
    NeedElevation { inv: Invocation, policy: Policy, user: String },
    /// Privilege was raised; waiting on process replacement, which only
    /// reports back if it failed.
    NeedExec { policy: Policy, user: String },
    /// Terminal: the launcher must exit with a non-zero status.
    Stopped,
}

/// What the surrounding program reports back after carrying out an action.
pub enum Event {
    /// The policy source loaded the policy, or failed.
    PolicyLoaded(Option<Policy>),
    /// The passwd lookup produced the caller's user name, or failed.
    IdentityResolved(Option<String>),
    /// Whether the audit line was appended to the log file.
    AuditWritten(bool),
    /// Whether the process user id was set to the superuser id.
    Elevated(bool),
    /// Process replacement returned, i.e. the target could not be run.
    ExecReturned,
}

/// What the machine asks the surrounding program to do next. The program
/// carries the action out and then either reports an `Event` back or exits.
pub enum Action {
    /// Print the usage line to standard error and exit non-zero.
    PrintUsage,
    /// Load the policy and report `PolicyLoaded`.
    LoadPolicy,
    /// Resolve the real user's name and report `IdentityResolved`.
    ResolveIdentity,
    /// Print the denial message (naming the rejected user) to standard error
    /// and exit non-zero.
    Deny(String),
    /// Append the line (plus a newline) to the file at the path, in
    /// append-only mode, creating it if absent; report `AuditWritten`.
    AppendAudit(String, String),
    /// Set the process user id to the superuser id and report `Elevated`.
    Elevate,
    /// Replace the process image with the program and arguments; if that
    /// returns, report `ExecReturned`.
    Exec(String, Vec<String>),
    /// Print the failure message to standard error and exit non-zero.
    Fail(String),
}

/// The pipeline's transition relation: from phase `pre`, on report `ev`, the
/// machine moves to `post` and asks for `act`. Every stage either proceeds
/// to the next stage or stops the launcher; no path continues past a failed
/// stage, and the audit write stands strictly between authorization and
/// elevation.
pub open spec fn transition(pre: Phase, ev: Event, post: Phase, act: Action) -> bool {
    match pre {
        Phase::NeedPolicy { inv } => match ev {
            Event::PolicyLoaded(Some(policy)) => {
                &&& post == (Phase::NeedIdentity { inv, policy })
                &&& act == Action::ResolveIdentity
            },
            Event::PolicyLoaded(None) => {
                &&& post is Stopped
                &&& act matches Action::Fail(m) && m@ == "could not load the policy file"@
            },
            _ => mismatch(post, act),
        },
        Phase::NeedIdentity { inv, policy } => match ev {
            Event::IdentityResolved(Some(user)) => {
                if allowed(policy.superusers.deep_view(), user@) {
                    match policy.log_file {
                        Some(path) => {
                            &&& post == (Phase::NeedAudit { inv, policy, user })
                            &&& act matches Action::AppendAudit(p, line)
                                && p@ == path@
                                && line@ == audit_line(user@, inv.program@, inv.args.deep_view())
                        },
                        None => {
                            &&& post == (Phase::NeedElevation { inv, policy, user })
                            &&& act == Action::Elevate
                        },
                    }
                } else {
                    &&& post is Stopped
                    &&& act matches Action::Deny(m) && m@ == denial_text(user@)
                }
            },
            Event::IdentityResolved(None) => {
                &&& post is Stopped
                &&& act matches Action::Fail(m) && m@ == "could not resolve the calling user"@
            },
            _ => mismatch(post, act),
        },
        Phase::NeedAudit { inv, policy, user } => match ev {
            Event::AuditWritten(true) => {
                &&& post == (Phase::NeedElevation { inv, policy, user })
                &&& act == Action::Elevate
            },
            Event::AuditWritten(false) => {
                &&& post is Stopped
                &&& act matches Action::Fail(m) && m@ == "could not write the audit log"@
            },
            _ => mismatch(post, act),
        },
        Phase::NeedElevation { inv, policy, user } => match ev {
            Event::Elevated(true) => {
                &&& post == (Phase::NeedExec { policy, user })
                &&& act == (Action::Exec(inv.program, inv.args))
            },
            Event::Elevated(false) => {
                &&& post is Stopped
                &&& act matches Action::Fail(m) && m@ == "setuid failed. You need root privileges."@
            },
            _ => mismatch(post, act),
        },
        Phase::NeedExec { .. } => match ev {
            Event::ExecReturned => {
                &&& post is Stopped
                &&& act matches Action::Fail(m) && m@ == "Command failed"@
            },
            _ => mismatch(post, act),
        },
        Phase::Stopped => mismatch(post, act),
    }
}

/// The outcome of an event that does not belong to the current phase (or of
/// any event once the machine has stopped): stop, and ask only for a
/// failure report.
pub open spec fn mismatch(post: Phase, act: Action) -> bool {
    &&& post is Stopped
    &&& act matches Action::Fail(m) && m@ == "unexpected event"@
}

/// What always holds of a phase the machine can reach: any phase past the
/// authorization gate carries an identity that the policy's allow-list names
/// verbatim, and the audit stage is entered only when a log path exists.
pub open spec fn phase_ok(p: Phase) -> bool {
    match p {
        Phase::NeedPolicy { .. } => true,
        Phase::NeedIdentity { .. } => true,
        Phase::NeedAudit { policy, user, .. } => {
            &&& allowed(policy.superusers.deep_view(), user@)
            &&& policy.log_file is Some
        },
        Phase::NeedElevation { policy, user, .. } => allowed(
            policy.superusers.deep_view(),
            user@,
        ),
        Phase::NeedExec { policy, user } => allowed(policy.superusers.deep_view(), user@),
        Phase::Stopped => true,
    }
}

/// Begins an invocation from the raw tokens (everything after the launcher's
/// own name). Zero tokens stop the machine at once with the usage report,
/// before any policy load or identity lookup; otherwise the policy load is
/// the first action.
pub fn start(tokens: Vec<String>) -> (r: (Phase, Action))
    ensures
        tokens@.len() == 0 ==> r.0 is Stopped && r.1 is PrintUsage,
        tokens@.len() > 0 ==> {
            &&& r.0 matches Phase::NeedPolicy { inv }
                && inv.program@ == tokens.deep_view()[0]
                && inv.args.deep_view() =~= tokens.deep_view().skip(1)
            &&& r.1 is LoadPolicy
        },
        phase_ok(r.0),
{
    match parse_invocation(tokens) {
        None => (Phase::Stopped, Action::PrintUsage),
        Some(inv) => (Phase::NeedPolicy { inv }, Action::LoadPolicy),
    }
}

/// Takes one step of the pipeline: consumes the current phase and the report
/// of the last action, and yields the next phase and the next action, as the
/// transition relation prescribes. Reachable phases stay well-formed.
pub fn step(phase: Phase, event: Event) -> (r: (Phase, Action))
    ensures
        transition(phase, event, r.0, r.1),
        phase_ok(phase) ==> phase_ok(r.0),
{
    match (phase, event) {
        (Phase::NeedPolicy { inv }, Event::PolicyLoaded(Some(policy))) => (
            Phase::NeedIdentity { inv, policy },
            Action::ResolveIdentity,
        ),
        (Phase::NeedPolicy { .. }, Event::PolicyLoaded(None)) => (
            Phase::Stopped,
            Action::Fail("could not load the policy file".to_owned()),
        ),
        (Phase::NeedIdentity { inv, policy }, Event::IdentityResolved(Some(user))) => {
            if policy.permits(&user) {
                let path = match &policy.log_file {
                    Some(p) => Some(p.clone()),
                    None => None,
                };
                match path {
                    Some(p) => {
                        let line = format_audit_line(&user, &inv);
                        (Phase::NeedAudit { inv, policy, user }, Action::AppendAudit(p, line))
                    },
                    None => (Phase::NeedElevation { inv, policy, user }, Action::Elevate),
                }
            } else {
                let m = denial_message(&user);
                (Phase::Stopped, Action::Deny(m))
            }
        },
        (Phase::NeedIdentity { .. }, Event::IdentityResolved(None)) => (
            Phase::Stopped,
            Action::Fail("could not resolve the calling user".to_owned()),
        ),
        (Phase::NeedAudit { inv, policy, user }, Event::AuditWritten(true)) => (
            Phase::NeedElevation { inv, policy, user },
            Action::Elevate,
        ),
        (Phase::NeedAudit { .. }, Event::AuditWritten(false)) => (
            Phase::Stopped,
            Action::Fail("could not write the audit log".to_owned()),
        ),
        (Phase::NeedElevation { inv, policy, user }, Event::Elevated(true)) => (
            Phase::NeedExec { policy, user },
            Action::Exec(inv.program, inv.args),
        ),
        (Phase::NeedElevation { .. }, Event::Elevated(false)) => (
            Phase::Stopped,
            Action::Fail("setuid failed. You need root privileges.".to_owned()),
        ),
        (Phase::NeedExec { .. }, Event::ExecReturned) => (
            Phase::Stopped,
            Action::Fail("Command failed".to_owned()),
        ),
        _ => (Phase::Stopped, Action::Fail("unexpected event".to_owned())),
    }
}

} // verus!
