use vstd::prelude::*;
use crate::audit::audit_line;
use crate::pipeline::{Action, Event, Phase, transition};
use crate::policy::{Policy, allowed};

verus! {

/// One recorded step of a run: the event handed to the machine, the phase it
/// moved to, and the action it asked for.
pub struct RunStep {
    pub event: Event,
    pub phase: Phase,
    pub action: Action,
}

/// The phase the machine holds just before step `i` of a run that began in
/// phase `init`.
pub open spec fn phase_before(init: Phase, steps: Seq<RunStep>, i: int) -> Phase {
    if i == 0 {
        init
    } else {
        steps[i - 1].phase
    }
}

/// A run is valid when every recorded step is a transition of the pipeline.
pub open spec fn valid_run(init: Phase, steps: Seq<RunStep>) -> bool {
    forall|i: int|
        0 <= i < steps.len() ==> transition(
            phase_before(init, steps, i),
            #[trigger] steps[i].event,
            steps[i].phase,
            steps[i].action,
        )
}

/// Where a phase stands in the pipeline's fixed order. `Stopped` comes last:
/// the machine never moves backwards and never leaves it.
pub open spec fn stage_rank(p: Phase) -> int {
    match p {
        Phase::NeedPolicy { .. } => 0,
        Phase::NeedIdentity { .. } => 1,
        Phase::NeedAudit { .. } => 2,
        Phase::NeedElevation { .. } => 3,
        Phase::NeedExec { .. } => 4,
        Phase::Stopped => 5,
    }
}

/// Each step either stops the machine or advances it strictly down the
/// pipeline; a stopped machine stays stopped.
pub proof fn lemma_steps_advance(pre: Phase, ev: Event, post: Phase, act: Action)
    requires
        transition(pre, ev, post, act),
    ensures
        stage_rank(pre) < stage_rank(post) || (pre is Stopped && post is Stopped),
{
}

/// Along a valid run the stage rank never decreases.
pub proof fn lemma_rank_monotone(init: Phase, steps: Seq<RunStep>, i: int, j: int)
    requires
        valid_run(init, steps),
        0 <= i <= j <= steps.len(),
    ensures
        stage_rank(phase_before(init, steps, i)) <= stage_rank(phase_before(init, steps, j)),
    decreases j - i,
{
    if i < j {
        lemma_steps_advance(
            phase_before(init, steps, i),
            steps[i].event,
            steps[i].phase,
            steps[i].action,
        );
        lemma_rank_monotone(init, steps, i + 1, j);
    }
}

/// Once the machine has stopped, every later step leaves it stopped and asks
/// only for a failure report: no policy load, identity lookup, audit write,
/// elevation or execution ever follows a stop.
pub proof fn lemma_stopped_is_final(init: Phase, steps: Seq<RunStep>, i: int)
    requires
        valid_run(init, steps),
        0 <= i <= steps.len(),
        phase_before(init, steps, i) is Stopped,
    ensures
        forall|j: int|
            i <= j < steps.len() ==> steps[j].phase is Stopped && (
            #[trigger] steps[j].action) is Fail,
    decreases steps.len() - i,
{
    if i < steps.len() {
        assert(transition(
            phase_before(init, steps, i),
            steps[i].event,
            steps[i].phase,
            steps[i].action,
        ));
        lemma_stopped_is_final(init, steps, i + 1);
    }
}

/// The audit log is appended to only at the authorization step itself: an
/// audit action arises only in the identity stage, on behalf of an identity
/// that the allow-list names, only where the policy has a log path, and it
/// carries exactly that caller's audit line.
pub proof fn lemma_audit_needs_authorization(pre: Phase, ev: Event, post: Phase, act: Action)
    requires
        transition(pre, ev, post, act),
        act is AppendAudit,
    ensures
        ({
            &&& pre matches Phase::NeedIdentity { inv, policy }
            &&& ev matches Event::IdentityResolved(Some(user))
            &&& allowed(policy.superusers.deep_view(), user@)
            &&& policy.log_file matches Some(path)
            &&& act matches Action::AppendAudit(p, line)
            &&& p@ == path@
            &&& line@ == audit_line(user@, inv.program@, inv.args.deep_view())
            &&& post == (Phase::NeedAudit { inv, policy, user })
        }),
{
}

/// Execution is asked for only from the elevation stage, and only on a
/// successful privilege transition.
pub proof fn lemma_exec_needs_elevation(pre: Phase, ev: Event, post: Phase, act: Action)
    requires
        transition(pre, ev, post, act),
        act is Exec,
    ensures
        ({
            &&& pre matches Phase::NeedElevation { inv, policy, user }
            &&& ev == Event::Elevated(true)
            &&& act == (Action::Exec(inv.program, inv.args))
            &&& post == (Phase::NeedExec { policy, user })
        }),
{
}

/// Whether the event, arriving in this phase, resolves no identity at all or
/// one that the phase's policy does not allow.
pub open spec fn resolved_identity_unauthorized(pre: Phase, ev: Event) -> bool {
    match pre {
        Phase::NeedIdentity { policy, .. } => match ev {
            Event::IdentityResolved(Some(user)) => !allowed(policy.superusers.deep_view(), user@),
            _ => true,
        },
        _ => true,
    }
}

/// A phase at or before the authorization gate, or a stopped machine.
pub open spec fn gate_not_passed(p: Phase) -> bool {
    p is NeedPolicy || p is NeedIdentity || p is Stopped
}

/// Whether the event resolves some identity while the machine stands at the
/// authorization gate.
pub open spec fn resolves_identity_at_gate(pre: Phase, ev: Event) -> bool {
    pre is NeedIdentity && ev matches Event::IdentityResolved(Some(_))
}

/// A run that never resolves an allow-listed identity never passes the
/// authorization gate: every reached phase lies at or before it, and no step
/// asks for an audit write, an elevation or an execution.
pub proof fn lemma_unauthorized_stays_before_gate(init: Phase, steps: Seq<RunStep>, i: int)
    requires
        valid_run(init, steps),
        gate_not_passed(init),
        forall|k: int|
            0 <= k < steps.len() ==> resolved_identity_unauthorized(
                phase_before(init, steps, k),
                #[trigger] steps[k].event,
            ),
        0 <= i <= steps.len(),
    ensures
        gate_not_passed(phase_before(init, steps, i)),
        forall|k: int|
            0 <= k < i ==> !((#[trigger] steps[k].action) is AppendAudit)
                && !(steps[k].action is Elevate) && !(steps[k].action is Exec),
    decreases i,
{
    if i > 0 {
        lemma_unauthorized_stays_before_gate(init, steps, i - 1);
        assert(resolved_identity_unauthorized(
            phase_before(init, steps, i - 1),
            steps[i - 1].event,
        ));
        assert(transition(
            phase_before(init, steps, i - 1),
            steps[i - 1].event,
            steps[i - 1].phase,
            steps[i - 1].action,
        ));
    }
}

/// An identity absent from the allow-list can do nothing: if every identity
/// a run resolves lies outside the allow-list, the audit log is never
/// appended to, privilege is never raised, nothing is executed, and the step
/// that resolves such an identity reports the denial and stops the machine,
/// so the launcher exits non-zero.
pub proof fn lemma_unauthorized_run(init: Phase, steps: Seq<RunStep>)
    requires
        valid_run(init, steps),
        gate_not_passed(init),
        forall|k: int|
            0 <= k < steps.len() ==> resolved_identity_unauthorized(
                phase_before(init, steps, k),
                #[trigger] steps[k].event,
            ),
    ensures
        forall|k: int|
            0 <= k < steps.len() ==> !((#[trigger] steps[k].action) is AppendAudit)
                && !(steps[k].action is Elevate) && !(steps[k].action is Exec),
        forall|k: int|
            0 <= k < steps.len() && resolves_identity_at_gate(
                phase_before(init, steps, k),
                #[trigger] steps[k].event,
            ) ==> steps[k].phase is Stopped && steps[k].action is Deny,
{
    lemma_unauthorized_stays_before_gate(init, steps, steps.len() as int);
    assert forall|k: int|
        0 <= k < steps.len() && resolves_identity_at_gate(
            phase_before(init, steps, k),
            #[trigger] steps[k].event,
        ) implies steps[k].phase is Stopped && steps[k].action is Deny by {
        assert(resolved_identity_unauthorized(phase_before(init, steps, k), steps[k].event));
        assert(transition(
            phase_before(init, steps, k),
            steps[k].event,
            steps[k].phase,
            steps[k].action,
        ));
    }
}

/// The audit log is appended to at most once in any run.
pub proof fn lemma_audit_at_most_once(init: Phase, steps: Seq<RunStep>, i: int, j: int)
    requires
        valid_run(init, steps),
        0 <= i < j < steps.len(),
        steps[i].action is AppendAudit,
    ensures
        !(steps[j].action is AppendAudit),
{
    lemma_audit_needs_authorization(
        phase_before(init, steps, i),
        steps[i].event,
        steps[i].phase,
        steps[i].action,
    );
    lemma_rank_monotone(init, steps, i + 1, j);
    if steps[j].action is AppendAudit {
        lemma_audit_needs_authorization(
            phase_before(init, steps, j),
            steps[j].event,
            steps[j].phase,
            steps[j].action,
        );
    }
}

/// Whether the action appends exactly the audit line of `user` running the
/// program with these arguments.
pub open spec fn appends_line_for(
    act: Action,
    user: Seq<char>,
    program: Seq<char>,
    args: Seq<Seq<char>>,
) -> bool {
    act matches Action::AppendAudit(p, line) && line@ == audit_line(user, program, args)
}

/// Whether the phase stands at the elevation stage of a policy that names a
/// log file.
pub open spec fn elevation_with_log(p: Phase) -> bool {
    p matches Phase::NeedElevation { policy, .. } && policy.log_file is Some
}

/// Whether the action appends exactly the audit line of the caller recorded
/// in the elevation phase `p`.
pub open spec fn appends_line_of_phase(act: Action, p: Phase) -> bool {
    match p {
        Phase::NeedElevation { inv, policy, user } => appends_line_for(
            act,
            user@,
            inv.program@,
            inv.args.deep_view(),
        ),
        _ => false,
    }
}

/// Where the policy names a log file, the elevation stage is reached only
/// after the caller's audit line was asked to be appended: any step taken
/// from the elevation stage is preceded by the one audit append that carried
/// exactly that caller's line.
pub proof fn lemma_audit_precedes_elevation(init: Phase, steps: Seq<RunStep>, j: int)
    requires
        valid_run(init, steps),
        gate_not_passed(init),
        0 <= j < steps.len(),
        elevation_with_log(phase_before(init, steps, j)),
    ensures
        exists|i: int|
            0 <= i < j && appends_line_of_phase(
                #[trigger] steps[i].action,
                phase_before(init, steps, j),
            ),
{
    if phase_before(init, steps, j) is NeedElevation {
        let pre = phase_before(init, steps, j);
        if j == 0 {
            assert(gate_not_passed(pre));
        } else {
            assert(steps[j - 1].phase == pre);
            assert(transition(
                phase_before(init, steps, j - 1),
                steps[j - 1].event,
                steps[j - 1].phase,
                steps[j - 1].action,
            ));
            let pre1 = phase_before(init, steps, j - 1);
            // The elevation stage with a log path is entered only from the
            // audit stage; without one, only straight from the identity
            // stage.
            if pre1 is NeedAudit {
                if j - 1 == 0 {
                    assert(gate_not_passed(pre1));
                } else {
                    assert(steps[j - 2].phase == pre1);
                    assert(transition(
                        phase_before(init, steps, j - 2),
                        steps[j - 2].event,
                        steps[j - 2].phase,
                        steps[j - 2].action,
                    ));
                }
            }
        }
    }
}

/// An execution is preceded by exactly one audit append, where the policy
/// names a log file: the step that asks for the process replacement comes
/// after the one step that asked for the caller's audit line.
pub proof fn lemma_exec_preceded_by_one_audit(init: Phase, steps: Seq<RunStep>, j: int)
    requires
        valid_run(init, steps),
        gate_not_passed(init),
        0 <= j < steps.len(),
        steps[j].action is Exec,
        elevation_with_log(phase_before(init, steps, j)),
    ensures
        exists|i: int|
            0 <= i < j && appends_line_of_phase(
                #[trigger] steps[i].action,
                phase_before(init, steps, j),
            ),
        forall|i1: int, i2: int|
            0 <= i1 < i2 < steps.len() ==> !((#[trigger] steps[i1].action) is AppendAudit && (
            #[trigger] steps[i2].action) is AppendAudit),
{
    lemma_audit_precedes_elevation(init, steps, j);
    assert forall|i1: int, i2: int|
        0 <= i1 < i2 < steps.len() && (#[trigger] steps[i1].action) is AppendAudit implies !((
    #[trigger] steps[i2].action) is AppendAudit) by {
        lemma_audit_at_most_once(init, steps, i1, i2);
    }
}

/// A run whose machine is already stopped — as after an invocation with zero
/// tokens, which stops before any policy load — is inert: nothing but
/// failure reports is ever asked for, so in particular no policy load,
/// identity lookup, audit write, elevation or execution takes place.
pub proof fn lemma_stopped_run_is_inert(init: Phase, steps: Seq<RunStep>)
    requires
        valid_run(init, steps),
        init is Stopped,
    ensures
        forall|k: int|
            0 <= k < steps.len() ==> steps[k].phase is Stopped && (
            #[trigger] steps[k].action) is Fail,
{
    lemma_stopped_is_final(init, steps, 0);
}

/// A policy that fails to load stops the launcher at once with a failure
/// report, and nothing — in particular no audit write — ever follows,
/// whoever the caller is.
pub proof fn lemma_policy_failure_is_final(init: Phase, steps: Seq<RunStep>)
    requires
        valid_run(init, steps),
        init is NeedPolicy,
        steps.len() > 0,
        steps[0].event == Event::PolicyLoaded(None::<Policy>),
    ensures
        steps[0].phase is Stopped,
        steps[0].action is Fail,
        forall|k: int| 0 <= k < steps.len() ==> !((#[trigger] steps[k].action) is AppendAudit),
{
    assert(transition(
        phase_before(init, steps, 0),
        steps[0].event,
        steps[0].phase,
        steps[0].action,
    ));
    lemma_stopped_is_final(init, steps, 1);
}

/// A failed privilege transition stops the launcher with a failure report;
/// the caller's audit line had already been asked for at an earlier step
/// (where the policy names a log file), and no execution is asked for at the
/// failing step or after it.
pub proof fn lemma_elevation_failure_is_final(init: Phase, steps: Seq<RunStep>, j: int)
    requires
        valid_run(init, steps),
        gate_not_passed(init),
        0 <= j < steps.len(),
        phase_before(init, steps, j) is NeedElevation,
        steps[j].event == Event::Elevated(false),
    ensures
        steps[j].phase is Stopped,
        steps[j].action is Fail,
        elevation_with_log(phase_before(init, steps, j)) ==> exists|i: int|
            0 <= i < j && appends_line_of_phase(
                #[trigger] steps[i].action,
                phase_before(init, steps, j),
            ),
        forall|k: int| j <= k < steps.len() ==> !((#[trigger] steps[k].action) is Exec),
{
    assert(transition(
        phase_before(init, steps, j),
        steps[j].event,
        steps[j].phase,
        steps[j].action,
    ));
    if elevation_with_log(phase_before(init, steps, j)) {
        lemma_audit_precedes_elevation(init, steps, j);
    }
    lemma_stopped_is_final(init, steps, j + 1);
}

} // verus!
