//! What holds of every command and every turn, whatever the stores, the ledger
//! and the verifier reply.
use vstd::prelude::*;
#[allow(unused_imports)]
use vstd::string::*;

use super::budget::{accounting_pause, GoalUsageTotals};
use super::context::{GoalAdmission, GoalAdmissionContext, GoalTurnEvaluation};
use super::evaluation::{autonomous_steps, complete_steps, evaluate_steps, verdict_steps, verify_steps, Verdict};
use super::flow::{AskedView, GoalReply, GoalRequest, StepView};
use super::lifecycle::{
    already_terminal, cancel_steps, command_pause, pause_steps, relimited_steps, resume_steps, start_steps, status_steps,
    GoalIdentity, GoalOwner,
};
use super::visibility::find_active_goal;
use crate::goal_task::{GoalPauseReason, GoalPauseView, TaskGoalView};
use crate::message::Text;
use crate::usd::Usd;

verus! {

/// Usage that is fully known and under both limits.
pub open spec fn within(usage: GoalUsageTotals, token_limit: Option<u64>, cost_limit: Option<Usd>) -> bool {
    &&& usage.usage_available
    &&& token_limit matches Some(limit) ==> usage.total_tokens < limit
    &&& cost_limit matches Some(limit) ==> usage.cost_tracking_available && usage.cost_pricing_available
        && !usage.cost_usd.at_least(limit)
}

/// Some reply gives usage within the limits.
pub open spec fn shown_within(replies: Seq<GoalReply>, token_limit: Option<u64>, cost_limit: Option<Usd>) -> bool {
    exists|k: int|
        0 <= k < replies.len() && ((#[trigger] replies[k]) matches GoalReply::Usage(Some(usage)) && within(
            usage,
            token_limit,
            cost_limit,
        ))
}

proof fn lemma_under(goal: TaskGoalView, usage: Option<GoalUsageTotals>)
    requires
        accounting_pause(goal.goal, usage) is None,
    ensures
        usage is Some,
        within(usage->Some_0, goal.goal.effective_token_limit, goal.goal.effective_cost_limit_usd),
{
}

#[verifier::spinoff_prover]
proof fn lemma_completion(
    ctx: GoalAdmissionContext,
    goal: TaskGoalView,
    summary: String,
    usage: Option<GoalUsageTotals>,
    replies: Seq<GoalReply>,
    from: usize,
    request: AskedView,
)
    requires
        complete_steps(ctx, goal, summary, usage, replies, from) == StepView::<Option<GoalTurnEvaluation>>::Ask(request),
        request is CompleteIfLimits,
    ensures
        request == (AskedView::CompleteIfLimits {
            task_id: goal.task.id,
            token_limit: goal.goal.effective_token_limit,
            cost_limit_usd: goal.goal.effective_cost_limit_usd,
            summary,
        }),
{
}

#[verifier::spinoff_prover]
proof fn lemma_verdict(
    ctx: GoalAdmissionContext,
    id: String,
    verdict: Verdict,
    summary: String,
    replies: Seq<GoalReply>,
    from: usize,
    request: AskedView,
)
    requires
        verdict_steps(ctx, id, verdict, summary, replies, from) == StepView::<Option<GoalTurnEvaluation>>::Ask(request),
        request is CompleteIfLimits,
    ensures
        request matches GoalRequest::CompleteIfLimits { token_limit, cost_limit_usd, .. } && shown_within(
            replies,
            token_limit,
            cost_limit_usd,
        ),
{
    let found = super::visibility::find_goal(ctx, Some(id), replies, from);
    assert(found is Ready);
    let current = found->Ready_0;
    let next = found->Ready_1;
    assert(next < replies.len());
    let usage = replies[next as int]->Usage_0;
    lemma_under(current, usage);
    lemma_completion(ctx, current, summary, usage, replies, (next + 1) as usize, request);
    assert(replies[next as int] == GoalReply::Usage(Some(usage->Some_0)));
}

/// A turn is recorded as completing its goal only after the ledger showed the
/// goal's usage fully known and under exactly the limits that the record is
/// made for.
#[verifier::spinoff_prover]
pub proof fn law_completion_within_budget(
    ctx: GoalAdmissionContext,
    control_plane: bool,
    verifier_enabled: bool,
    summary: String,
    replies: Seq<GoalReply>,
    request: AskedView,
)
    requires
        evaluate_steps(ctx, control_plane, verifier_enabled, summary, replies) == StepView::<
            Option<GoalTurnEvaluation>,
        >::Ask(request),
        request is CompleteIfLimits,
    ensures
        request matches GoalRequest::CompleteIfLimits { token_limit, cost_limit_usd, .. } && shown_within(
            replies,
            token_limit,
            cost_limit_usd,
        ),
{
    let found = find_active_goal(ctx, replies, 0);
    assert(found is Ready);
    let goal = found->Ready_0->Some_0;
    let next = found->Ready_1;
    assert(next < replies.len());
    let usage = replies[next as int]->Usage_0;
    lemma_under(goal, usage);
    assert(replies[next as int] == GoalReply::Usage(Some(usage->Some_0)));
    if !verifier_enabled {
        lemma_completion(ctx, goal, summary, usage, replies, (next + 1) as usize, request);
    } else {
        let at = (next + 2) as usize;
        assert(verify_steps(ctx, goal, summary, replies, at) == StepView::<Option<GoalTurnEvaluation>>::Ask(request));
        assert(at < replies.len());
        let verdict = match replies[at as int] {
            GoalReply::Verdict(super::flow::VerifierOutcome::Continue { notes }) => Verdict::Continue(notes),
            _ => Verdict::Complete,
        };
        lemma_verdict(ctx, goal.task.id, verdict, summary, replies, (at + 1) as usize, request);
    }
}

/// The verifier is asked only about a goal that runs and whose budget allows
/// it, and in the name of exactly that goal.
#[verifier::spinoff_prover]
pub proof fn law_verifier_sees_running_goal_within_budget(
    ctx: GoalAdmissionContext,
    control_plane: bool,
    verifier_enabled: bool,
    summary: String,
    replies: Seq<GoalReply>,
    request: AskedView,
)
    requires
        evaluate_steps(ctx, control_plane, verifier_enabled, summary, replies) == StepView::<
            Option<GoalTurnEvaluation>,
        >::Ask(request),
        request is Verify,
    ensures
        verifier_enabled,
        find_active_goal(ctx, replies, 0) matches StepView::Ready(Some(goal), _) && goal.task.status is Running && {
            &&& request == (AskedView::Verify {
                agent: goal.task.agent,
                context: GoalAdmissionContext { goal_task_id: Some(goal.task.id), ..ctx },
                goal: goal.goal,
                summary,
            })
            &&& shown_within(replies, goal.goal.effective_token_limit, goal.goal.effective_cost_limit_usd)
        },
{
    let found = find_active_goal(ctx, replies, 0);
    assert(found is Ready);
    let goal = found->Ready_0->Some_0;
    let next = found->Ready_1;
    assert(next < replies.len());
    let usage = replies[next as int]->Usage_0;
    lemma_under(goal, usage);
    assert(replies[next as int] == GoalReply::Usage(Some(usage->Some_0)));
}

/// A goal is resumed only where its budget, as just read, lets it go on, and
/// under the owner that resumes it.
pub proof fn law_resume_needs_budget(
    ctx: GoalAdmissionContext,
    resume_reason: Option<String>,
    configured: bool,
    current: TaskGoalView,
    owner: GoalOwner,
    replies: Seq<GoalReply>,
    from: usize,
    request: AskedView,
)
    requires
        resume_steps(ctx, resume_reason, configured, owner, current, replies, from) == StepView::<GoalAdmission>::Ask(request),
        request is ResumePaused,
    ensures
        from < replies.len(),
        replies[from as int] matches GoalReply::Usage(usage) && command_pause(current.goal, configured, usage) is None,
        !current.task.status.terminal(),
        request == (AskedView::ResumePaused {
            task_id: current.task.id,
            owner_pid: owner.pid,
            boot_id: owner.boot_id,
            continuation: ctx.continuation_context,
        }),
{
}

/// Under a configuration, a goal whose ledger cannot be read is not resumed:
/// the only thing asked for is its pause.
pub proof fn law_unreadable_ledger_keeps_paused(
    ctx: GoalAdmissionContext,
    resume_reason: Option<String>,
    current: TaskGoalView,
    owner: GoalOwner,
    replies: Seq<GoalReply>,
    from: usize,
)
    requires
        !current.task.status.terminal(),
        from + 1 == replies.len() <= usize::MAX,
        replies[from as int] == GoalReply::Usage(None),
    ensures
        resume_steps(ctx, resume_reason, true, owner, current, replies, from) matches StepView::Ask(
            GoalRequest::PauseIfStatus { task_id, expected, pause },
        ) && task_id == current.task.id && expected == current.task.status,
{
}

/// Raised limits resume a goal only where nothing but the budget held it up,
/// and under the owner that raises them.
pub proof fn law_budget_update_resumes_only_budget_pauses(
    ctx: GoalAdmissionContext,
    goal: TaskGoalView,
    configured: bool,
    usage: Option<GoalUsageTotals>,
    owner: GoalOwner,
    replies: Seq<GoalReply>,
    from: usize,
    request: AskedView,
)
    requires
        relimited_steps(ctx, goal, configured, owner, usage, replies, from) == StepView::<GoalAdmission>::Ask(request),
        request is ResumePaused,
    ensures
        goal.task.status is Paused,
        command_pause(goal.goal, configured, usage) is None,
        forall|i: int| 0 <= i < goal.goal.blockers.len() ==> (#[trigger] goal.goal.blockers[i]).kind is Budget,
        request == (AskedView::ResumePaused {
            task_id: goal.task.id,
            owner_pid: owner.pid,
            boot_id: owner.boot_id,
            continuation: ctx.continuation_context,
        }),
{
    super::budget::law_removal_keeps_other_blockers(goal.goal);
}

/// A goal that has ended is not paused, resumed or cancelled: each command
/// fails without asking for anything.
pub proof fn law_ended_goal_stays_ended(
    ctx: GoalAdmissionContext,
    resume_reason: Option<String>,
    configured: bool,
    goal: TaskGoalView,
    pause: GoalPauseView,
    budget: Text,
    owner: GoalOwner,
    replies: Seq<GoalReply>,
    from: usize,
)
    requires
        goal.task.status.terminal(),
    ensures
        ({
            let ended = StepView::<GoalAdmission>::Fail(already_terminal(goal.task));
            &&& pause_steps(goal, pause, budget, replies, from) == ended
            &&& resume_steps(ctx, resume_reason, configured, owner, goal, replies, from) == ended
            &&& cancel_steps(goal, replies, from) == ended
        }),
{
}

/// A turn that is bound to a goal works for exactly that goal: it is looked up
/// by its id, never by what is latest in the context.
pub proof fn law_bound_turn_keeps_its_goal(ctx: GoalAdmissionContext, id: String)
    requires
        ctx.goal_task_id == Some(id),
    ensures
        find_active_goal(ctx, Seq::<GoalReply>::empty(), 0) == StepView::<Option<TaskGoalView>>::Ask(
            GoalRequest::ReadTask(id),
        ),
        autonomous_steps(ctx, true, Seq::<GoalReply>::empty()) == StepView::<Option<GoalAdmission>>::Ask(
            GoalRequest::ReadTask(id),
        ),
{
}

/// No goal starts where one is active in its context.
pub proof fn law_one_active_goal_per_context(
    ctx: GoalAdmissionContext,
    objective: String,
    token_limit: Option<u64>,
    cost_limit: Option<Usd>,
    configured: bool,
    identity: GoalIdentity,
    replies: Seq<GoalReply>,
    from: usize,
    request: AskedView,
)
    requires
        start_steps(ctx, objective, token_limit, cost_limit, configured, identity, replies, from) == StepView::<
            GoalAdmission,
        >::Ask(request),
        request is Create,
    ensures
        replies.len() > 0,
        replies.last() == GoalReply::Task(None),
{
}

/// A goal that starts without a usable ledger starts paused, and says that its
/// budget cannot be accounted for.
pub proof fn law_unusable_ledger_starts_paused(
    ctx: GoalAdmissionContext,
    objective: String,
    token_limit: Option<u64>,
    identity: GoalIdentity,
    replies: Seq<GoalReply>,
)
    requires
        replies.len() == 2,
        replies[0] == GoalReply::Ledger(None),
        replies[1] == GoalReply::Task(None),
    ensures
        start_steps(ctx, objective, token_limit, None, true, identity, replies, 0) matches StepView::Ask(
            GoalRequest::Create { task, goal, continuation },
        ) && task.status is Paused && goal.pause_reason == Some(GoalPauseReason::BudgetUnavailable) && continuation
            == ctx.continuation_context,
{
}

/// Showing a goal changes nothing but, at most, the identity under which an
/// older release stored it.
#[verifier::spinoff_prover]
pub proof fn law_status_only_reads(
    ctx: GoalAdmissionContext,
    task_id: Option<String>,
    replies: Seq<GoalReply>,
    from: usize,
    request: AskedView,
)
    requires
        status_steps(ctx, task_id, replies, from) == StepView::<GoalAdmission>::Ask(request),
    ensures
        match request {
            GoalRequest::ReadTask(_) => true,
            GoalRequest::LatestActive { .. } => true,
            GoalRequest::ReadGoal(_) => true,
            GoalRequest::ReadContinuation(_) => true,
            GoalRequest::Rebind { .. } => true,
            GoalRequest::ReadUsage { access, .. } => access is IfReady,
            _ => false,
        },
{
}

} // verus!
