//! What commands and turns lead to: for each of them, what is asked for, under
//! which replies, and what the answer says then.
use vstd::prelude::*;
#[allow(unused_imports)]
use vstd::string::*;

use super::budget::{
    accounting_pause, budget_summary, unavailable_pause, GoalBudgetUnavailableCause, GoalUsageTotals,
};
use super::context::{GoalAdmission, GoalAdmissionContext, GoalStateUpdateEvent, GoalTurnEvaluation};
use super::evaluation::{
    accounting_failure_steps, autonomous_steps, evaluate_steps, human_gate_steps, interruption_steps, LIMITS_CHANGED,
};
use super::flow::{AskedView, GoalReply, GoalRequest, LedgerAccess, StepView, VerifierOutcome};
use super::laws::within;
use super::lifecycle::{pause_steps, status_message};
use super::visibility::{find_active_goal, find_goal};
use crate::error::GoalError;
use crate::goal_task::{GoalBlocker, GoalBlockerKind, GoalPauseReason, GoalPauseView, TaskGoalView};
use crate::message::{Args, Text};
use crate::payload::Json;
use crate::task::{TaskRecord, TaskStatus};
use crate::text::blank;

verus! {

/// A failure that says something about a task.
pub open spec fn complaint(key: &'static str, task_id: String) -> GoalError {
    GoalError {
        text: Text::Message(key, Box::new(Args::Arg("task_id", Text::Plain(task_id), Box::new(Args::End)))),
        cause: None,
    }
}

/// The notice of a goal and its budget.
pub open spec fn notice(key: &'static str, task_id: String, budget: Text) -> Text {
    Text::Message(
        key,
        Box::new(
            Args::Arg(
                "task_id",
                Text::Plain(task_id),
                Box::new(Args::Arg("budget", budget, Box::new(Args::End))),
            ),
        ),
    )
}

/// The update that people see of a notice.
pub open spec fn update(notice: Text) -> AskedView {
    GoalRequest::Publish(
        GoalStateUpdateEvent::Status(
            Text::Message("channel-goal-state-update", Box::new(Args::Arg("message", notice, Box::new(Args::End)))),
        ),
    )
}

/// Without a reply at a position, a request is made.
pub open spec fn asks<T>(step: StepView<T>, replies: Seq<GoalReply>, at: int, request: AskedView) -> bool {
    replies.len() == at ==> step == StepView::<T>::Ask(request)
}

/// A guarded change is asked for. Where it was not made the step fails with a
/// complaint, and where the store failed it fails in the context of it.
pub open spec fn changes<T>(
    step: StepView<T>,
    replies: Seq<GoalReply>,
    at: int,
    request: AskedView,
    complaint: GoalError,
) -> bool {
    &&& asks(step, replies, at, request)
    &&& replies.len() > at ==> match replies[at] {
        GoalReply::Applied(true) => true,
        GoalReply::Applied(false) => step == StepView::<T>::Fail(complaint),
        GoalReply::Failed(error) => step == StepView::<T>::Fail(
            GoalError { text: complaint.text, cause: Some(Box::new(error)) },
        ),
        _ => step is Fail,
    }
}

/// The change that was asked for at a position was made.
pub open spec fn made(replies: Seq<GoalReply>, at: int) -> bool {
    0 <= at < replies.len() && replies[at] == GoalReply::Applied(true)
}

/// A notice is shown, and then the step has its result.
pub open spec fn shows<T>(step: StepView<T>, replies: Seq<GoalReply>, at: int, notice: Text, result: T) -> bool {
    &&& asks(step, replies, at, update(notice))
    &&& replies.len() > at && replies[at] == GoalReply::Done ==> step == StepView::Ready(result, (at + 1) as usize)
}

/// The notice of a pause: one that the budget calls for has its own.
pub open spec fn pause_notice(reason: GoalPauseReason, task_id: String, budget: Text) -> Text {
    notice(
        match reason {
            GoalPauseReason::BudgetExhausted => "goal-command-budget-exhausted",
            GoalPauseReason::BudgetUnavailable => "goal-command-budget-unavailable",
            _ => "goal-command-paused",
        },
        task_id,
        budget,
    )
}

/// The pause of a running goal is asked for at a position, and a turn that
/// paused its goal says so.
pub open spec fn turn_pauses(
    step: StepView<Option<GoalTurnEvaluation>>,
    replies: Seq<GoalReply>,
    at: int,
    goal: TaskGoalView,
    pause: GoalPauseView,
    usage: Option<GoalUsageTotals>,
) -> bool {
    let id = goal.task.id;
    let told = pause_notice(pause.reason, id, budget_summary(goal.goal, usage));
    &&& changes(
        step,
        replies,
        at,
        GoalRequest::PauseIfStatus { task_id: id, expected: TaskStatus::Running, pause },
        complaint("goal-command-error-pause-failed", id),
    )
    &&& made(replies, at) ==> shows(
        step,
        replies,
        at + 1,
        told,
        Some(GoalTurnEvaluation::Paused { task_id: id, message: told }),
    )
}

/// Completion of a running goal is asked for at a position, under the limits
/// that it was read with; a turn that completed its goal says so.
pub open spec fn turn_completes(
    step: StepView<Option<GoalTurnEvaluation>>,
    replies: Seq<GoalReply>,
    at: int,
    goal: TaskGoalView,
    summary: String,
    usage: Option<GoalUsageTotals>,
) -> bool {
    let id = goal.task.id;
    let told = notice("goal-command-completed", id, budget_summary(goal.goal, usage));
    &&& asks(
        step,
        replies,
        at,
        GoalRequest::CompleteIfLimits {
            task_id: id,
            token_limit: goal.goal.effective_token_limit,
            cost_limit_usd: goal.goal.effective_cost_limit_usd,
            summary,
        },
    )
    &&& made(replies, at) ==> shows(
        step,
        replies,
        at + 1,
        told,
        Some(GoalTurnEvaluation::Completed { task_id: id, message: told }),
    )
    &&& replies.len() > at && replies[at] is Failed ==> step == StepView::<Option<GoalTurnEvaluation>>::Fail(
        GoalError {
            text: complaint("goal-command-error-update-failed", id).text,
            cause: Some(Box::new(replies[at]->Failed_0)),
        },
    )
}

/// A running goal goes on, with notes for its next turn.
pub open spec fn turn_continues(
    step: StepView<Option<GoalTurnEvaluation>>,
    replies: Seq<GoalReply>,
    at: int,
    goal: TaskGoalView,
    notes: Text,
    usage: Option<GoalUsageTotals>,
) -> bool {
    let id = goal.task.id;
    let told = notice("goal-command-continuing", id, budget_summary(goal.goal, usage));
    shows(
        step,
        replies,
        at,
        told,
        Some(
            GoalTurnEvaluation::Continue { task_id: id, objective: goal.goal.objective, notes, message: told },
        ),
    )
}

/// The goal of a turn was found running, and its usage was read at a position.
pub open spec fn turn_found(
    ctx: GoalAdmissionContext,
    replies: Seq<GoalReply>,
    goal: TaskGoalView,
    usage: Option<GoalUsageTotals>,
    at: usize,
) -> bool {
    &&& find_active_goal(ctx, replies, 0) == StepView::Ready(Some(goal), at)
    &&& goal.task.status is Running
    &&& at < replies.len() <= usize::MAX
    &&& replies[at as int] == GoalReply::Usage(usage)
}

/// The verifier was asked about the goal of a turn, and replied at a position.
pub open spec fn judged(
    ctx: GoalAdmissionContext,
    replies: Seq<GoalReply>,
    goal: TaskGoalView,
    usage: GoalUsageTotals,
    at: usize,
    outcome: VerifierOutcome,
) -> bool {
    &&& turn_found(ctx, replies, goal, Some(usage), (at - 2) as usize)
    &&& 2 <= at < replies.len()
    &&& within(usage, goal.goal.effective_token_limit, goal.goal.effective_cost_limit_usd)
    &&& replies[at - 1] == GoalReply::Done
    &&& replies[at as int] == GoalReply::Verdict(outcome)
}

/// Nothing is evaluated without stores, without an active goal, or for a goal
/// that does not run.
pub proof fn law_nothing_to_evaluate(
    ctx: GoalAdmissionContext,
    control_plane: bool,
    verifier_enabled: bool,
    summary: String,
    replies: Seq<GoalReply>,
    goal: Option<TaskGoalView>,
    at: usize,
)
    requires
        !control_plane || find_active_goal(ctx, replies, 0) == StepView::Ready(goal, at),
        control_plane ==> (goal matches Some(goal) ==> !(goal.task.status is Running)),
    ensures
        evaluate_steps(ctx, control_plane, verifier_enabled, summary, replies) == StepView::Ready(
            None::<GoalTurnEvaluation>,
            if control_plane {
                at
            } else {
                0
            },
        ),
{
}

/// The usage of a running goal is read before anything else is done about it,
/// and a goal that may not go on is paused, verifier or not.
#[verifier::spinoff_prover]
pub proof fn law_turn_is_paused_by_its_budget(
    ctx: GoalAdmissionContext,
    verifier_enabled: bool,
    summary: String,
    replies: Seq<GoalReply>,
    goal: TaskGoalView,
    usage: Option<GoalUsageTotals>,
    at: usize,
)
    requires
        find_active_goal(ctx, replies, 0) == StepView::Ready(Some(goal), at),
        goal.task.status is Running,
        at <= replies.len() <= usize::MAX,
    ensures
        ({
            let step = evaluate_steps(ctx, true, verifier_enabled, summary, replies);
            &&& asks(
                step,
                replies,
                at as int,
                GoalRequest::ReadUsage { task_id: goal.task.id, access: LedgerAccess::Writable },
            )
            &&& turn_found(ctx, replies, goal, usage, at) ==> match accounting_pause(goal.goal, usage) {
                Some(pause) => turn_pauses(step, replies, at + 1, goal, pause, usage),
                None => true,
            }
        }),
{
}

/// Without a verifier, a turn within the budget completes its goal.
#[verifier::spinoff_prover]
pub proof fn law_unverified_turn_completes(
    ctx: GoalAdmissionContext,
    summary: String,
    replies: Seq<GoalReply>,
    goal: TaskGoalView,
    usage: GoalUsageTotals,
    at: usize,
)
    requires
        turn_found(ctx, replies, goal, Some(usage), at),
        within(usage, goal.goal.effective_token_limit, goal.goal.effective_cost_limit_usd),
    ensures
        turn_completes(
            evaluate_steps(ctx, true, false, summary, replies),
            replies,
            at + 1,
            goal,
            summary,
            Some(usage),
        ),
{
}

/// With a verifier, a turn within the budget is judged: people are told, and
/// then the verifier is asked about the goal and the summary of the turn.
#[verifier::spinoff_prover]
pub proof fn law_turn_is_judged(
    ctx: GoalAdmissionContext,
    summary: String,
    replies: Seq<GoalReply>,
    goal: TaskGoalView,
    usage: GoalUsageTotals,
    at: usize,
)
    requires
        turn_found(ctx, replies, goal, Some(usage), at),
        within(usage, goal.goal.effective_token_limit, goal.goal.effective_cost_limit_usd),
    ensures
        ({
            let step = evaluate_steps(ctx, true, true, summary, replies);
            &&& asks(
                step,
                replies,
                at + 1,
                GoalRequest::Publish(
                    GoalStateUpdateEvent::VerifierStarted(
                        notice("goal-command-verifying", goal.task.id, budget_summary(goal.goal, Some(usage))),
                    ),
                ),
            )
            &&& replies.len() > at + 1 && replies[at + 1] == GoalReply::Done ==> asks(
                step,
                replies,
                at + 2,
                GoalRequest::Verify {
                    agent: goal.task.agent,
                    context: GoalAdmissionContext { goal_task_id: Some(goal.task.id), ..ctx },
                    goal: goal.goal,
                    summary,
                },
            )
        }),
{
}

/// A goal that the verifier accepts is read anew. If it still runs and may go
/// on, it is completed under its limits, with the summary of the turn; if it
/// may not go on it is paused; if it does not run any more it is left alone.
#[verifier::spinoff_prover]
pub proof fn law_accepted_goal_is_completed(
    ctx: GoalAdmissionContext,
    summary: String,
    replies: Seq<GoalReply>,
    goal: TaskGoalView,
    usage: GoalUsageTotals,
    at: usize,
    current: TaskGoalView,
    used: Option<GoalUsageTotals>,
    next: usize,
)
    requires
        judged(ctx, replies, goal, usage, at, VerifierOutcome::Complete),
        find_goal(ctx, Some(goal.task.id), replies, (at + 1) as usize) == StepView::Ready(current, next),
        next <= replies.len() <= usize::MAX,
    ensures
        ({
            let step = evaluate_steps(ctx, true, true, summary, replies);
            if !(current.task.status is Running) {
                step == StepView::Ready(None::<GoalTurnEvaluation>, next)
            } else {
                &&& asks(
                    step,
                    replies,
                    next as int,
                    GoalRequest::ReadUsage { task_id: current.task.id, access: LedgerAccess::Writable },
                )
                &&& replies.len() > next && replies[next as int] == GoalReply::Usage(used) ==> match accounting_pause(
                    current.goal,
                    used,
                ) {
                    Some(pause) => turn_pauses(step, replies, next + 1, current, pause, used),
                    None => turn_completes(step, replies, next + 1, current, summary, used),
                }
            }
        }),
{
}

/// A goal that the verifier sends back is read anew. If it still runs and may
/// go on, it goes on with the verifier's notes.
#[verifier::spinoff_prover]
pub proof fn law_returned_goal_goes_on(
    ctx: GoalAdmissionContext,
    summary: String,
    replies: Seq<GoalReply>,
    goal: TaskGoalView,
    usage: GoalUsageTotals,
    at: usize,
    notes: String,
    current: TaskGoalView,
    used: Option<GoalUsageTotals>,
    next: usize,
)
    requires
        judged(ctx, replies, goal, usage, at, (VerifierOutcome::Continue { notes })),
        find_goal(ctx, Some(goal.task.id), replies, (at + 1) as usize) == StepView::Ready(current, next),
        next <= replies.len() <= usize::MAX,
    ensures
        ({
            let step = evaluate_steps(ctx, true, true, summary, replies);
            if !(current.task.status is Running) {
                step == StepView::Ready(None::<GoalTurnEvaluation>, next)
            } else {
                &&& asks(
                    step,
                    replies,
                    next as int,
                    GoalRequest::ReadUsage { task_id: current.task.id, access: LedgerAccess::Writable },
                )
                &&& replies.len() > next && replies[next as int] == GoalReply::Usage(used) ==> match accounting_pause(
                    current.goal,
                    used,
                ) {
                    Some(pause) => turn_pauses(step, replies, next + 1, current, pause, used),
                    None => turn_continues(step, replies, next + 1, current, Text::Plain(notes), used),
                }
            }
        }),
{
}

/// A goal that the verifier holds up is paused as the verifier says.
#[verifier::spinoff_prover]
pub proof fn law_blocked_goal_is_paused(
    ctx: GoalAdmissionContext,
    summary: String,
    replies: Seq<GoalReply>,
    goal: TaskGoalView,
    usage: GoalUsageTotals,
    at: usize,
    pause: crate::goal_task::GoalPauseState,
    used: Option<GoalUsageTotals>,
)
    requires
        judged(ctx, replies, goal, usage, at, (VerifierOutcome::Blocked { pause })),
    ensures
        ({
            let step = evaluate_steps(ctx, true, true, summary, replies);
            &&& asks(
                step,
                replies,
                at + 1,
                GoalRequest::ReadUsage { task_id: goal.task.id, access: LedgerAccess::Writable },
            )
            &&& replies.len() > at + 1 && replies[at + 1] == GoalReply::Usage(used) ==> turn_pauses(
                step,
                replies,
                at + 2,
                goal,
                pause@,
                used,
            )
        }),
{
}

/// A verification that could not be accounted for leaves its goal paused: it is
/// paused if it still runs, it is shown if accounting has paused it already,
/// and a newer state is left alone.
#[verifier::spinoff_prover]
pub proof fn law_unaccounted_verification_leaves_the_goal_paused(
    ctx: GoalAdmissionContext,
    summary: String,
    replies: Seq<GoalReply>,
    goal: TaskGoalView,
    usage: GoalUsageTotals,
    at: usize,
    pricing: bool,
    current: TaskGoalView,
    used: Option<GoalUsageTotals>,
    next: usize,
)
    requires
        judged(ctx, replies, goal, usage, at, (VerifierOutcome::AccountingFailed { pricing })),
        find_goal(ctx, Some(goal.task.id), replies, (at + 1) as usize) == StepView::Ready(current, next),
        current.task.id == goal.task.id,
        next < replies.len() <= usize::MAX,
        replies[next as int] == GoalReply::Usage(used),
    ensures
        ({
            let step = evaluate_steps(ctx, true, true, summary, replies);
            let id = goal.task.id;
            match current.task.status {
                TaskStatus::Running => turn_pauses(
                    step,
                    replies,
                    next + 1,
                    current,
                    unavailable_pause(
                        current.goal,
                        if pricing {
                            GoalBudgetUnavailableCause::CostPricingUnavailable
                        } else {
                            GoalBudgetUnavailableCause::UsageUnavailable
                        },
                    ),
                    used,
                ),
                TaskStatus::Paused => if current.goal.pause_reason == Some(GoalPauseReason::BudgetUnavailable) {
                    step == StepView::Ready(
                        Some(
                            GoalTurnEvaluation::Paused {
                                task_id: id,
                                message: notice(
                                    "goal-command-budget-unavailable",
                                    id,
                                    budget_summary(current.goal, used),
                                ),
                            },
                        ),
                        (next + 1) as usize,
                    )
                } else {
                    step == StepView::Ready(None::<GoalTurnEvaluation>, next)
                },
                _ => step == StepView::Ready(None::<GoalTurnEvaluation>, next),
            }
        }),
{
}

/// Where completion is not recorded because the limits changed meanwhile, the
/// goal is read anew: it pauses if its new limits call for it, goes on and is
/// told why while it runs, and is left alone otherwise.
#[verifier::spinoff_prover]
pub proof fn law_refused_completion_is_looked_at_again(
    ctx: GoalAdmissionContext,
    summary: String,
    replies: Seq<GoalReply>,
    goal: TaskGoalView,
    usage: GoalUsageTotals,
    at: usize,
    current: TaskGoalView,
    used: Option<GoalUsageTotals>,
    next: usize,
)
    requires
        turn_found(ctx, replies, goal, Some(usage), at),
        within(usage, goal.goal.effective_token_limit, goal.goal.effective_cost_limit_usd),
        at + 1 < replies.len(),
        replies[at + 1] == GoalReply::Applied(false),
        find_goal(ctx, Some(goal.task.id), replies, (at + 2) as usize) == StepView::Ready(current, next),
        current.task.id == goal.task.id,
        next <= replies.len() <= usize::MAX,
    ensures
        ({
            let step = evaluate_steps(ctx, true, false, summary, replies);
            if !(current.task.status is Running) {
                step == StepView::Ready(None::<GoalTurnEvaluation>, next)
            } else {
                &&& asks(
                    step,
                    replies,
                    next as int,
                    GoalRequest::ReadUsage { task_id: current.task.id, access: LedgerAccess::Writable },
                )
                &&& replies.len() > next && replies[next as int] == GoalReply::Usage(used) ==> match accounting_pause(
                    current.goal,
                    used,
                ) {
                    Some(pause) => turn_pauses(step, replies, next + 1, current, pause, used),
                    None => turn_continues(step, replies, next + 1, current, Text::Fixed(LIMITS_CHANGED), used),
                }
            }
        }),
{
}

// ---------------------------------------------------------------- between turns
/// An autonomous turn is let through without a word exactly where its goal runs
/// within its budget, or where there is no goal; a running goal over its budget
/// is paused, and any other goal is shown as it is.
#[verifier::spinoff_prover]
pub proof fn law_autonomous_turn_needs_a_running_goal_within_budget(
    ctx: GoalAdmissionContext,
    replies: Seq<GoalReply>,
    goal: TaskGoalView,
    usage: Option<GoalUsageTotals>,
    at: usize,
)
    requires
        find_active_goal(ctx, replies, 0) == StepView::Ready(Some(goal), at),
        at <= replies.len() <= usize::MAX,
    ensures
        ({
            let step = autonomous_steps(ctx, true, replies);
            let id = goal.task.id;
            &&& asks(step, replies, at as int, GoalRequest::ReadUsage { task_id: id, access: LedgerAccess::Writable })
            &&& at < replies.len() && replies[at as int] == GoalReply::Usage(usage) ==> {
                let budget = budget_summary(goal.goal, usage);
                if !(goal.task.status is Running) {
                    step == StepView::Ready(
                        Some(
                            GoalAdmission {
                                task_id: Some(id),
                                status: goal.task.status,
                                message: status_message(goal, budget),
                                continuation_reason: None,
                                continue_goal: false,
                            },
                        ),
                        (at + 1) as usize,
                    )
                } else {
                    match accounting_pause(goal.goal, usage) {
                        None => step == StepView::Ready(None::<GoalAdmission>, (at + 1) as usize),
                        Some(pause) => {
                            &&& changes(
                                step,
                                replies,
                                at + 1,
                                GoalRequest::PauseIfStatus { task_id: id, expected: TaskStatus::Running, pause },
                                complaint("goal-command-error-pause-failed", id),
                            )
                            &&& made(replies, at + 1) ==> step == StepView::Ready(
                                Some(
                                    GoalAdmission {
                                        task_id: Some(id),
                                        status: TaskStatus::Paused,
                                        message: pause_notice(pause.reason, id, budget),
                                        continuation_reason: None,
                                        continue_goal: false,
                                    },
                                ),
                                (at + 2) as usize,
                            )
                        },
                    }
                }
            }
        }),
{
}

pub proof fn law_autonomous_turn_without_a_goal_is_let_through(
    ctx: GoalAdmissionContext,
    control_plane: bool,
    replies: Seq<GoalReply>,
    at: usize,
)
    requires
        !control_plane || find_active_goal(ctx, replies, 0) == StepView::Ready(None::<TaskGoalView>, at),
    ensures
        autonomous_steps(ctx, control_plane, replies) == StepView::Ready(
            None::<GoalAdmission>,
            if control_plane {
                at
            } else {
                0
            },
        ),
{
}

/// A goal is paused in the state it was read in and told as its reason says; a
/// goal that has ended is refused.
pub proof fn law_pause_is_told(
    goal: TaskGoalView,
    pause: GoalPauseView,
    budget: Text,
    replies: Seq<GoalReply>,
    from: usize,
)
    requires
        from <= replies.len() <= usize::MAX,
    ensures
        ({
            let step = pause_steps(goal, pause, budget, replies, from);
            let id = goal.task.id;
            if goal.task.status is Running || goal.task.status is Paused {
                &&& changes(
                    step,
                    replies,
                    from as int,
                    GoalRequest::PauseIfStatus { task_id: id, expected: goal.task.status, pause },
                    complaint("goal-command-error-pause-failed", id),
                )
                &&& made(replies, from as int) ==> step == StepView::Ready(
                    GoalAdmission {
                        task_id: Some(id),
                        status: TaskStatus::Paused,
                        message: pause_notice(pause.reason, id, budget),
                        continuation_reason: None,
                        continue_goal: false,
                    },
                    (from + 1) as usize,
                )
            } else {
                step is Fail
            }
        }),
{
}

/// A turn that waits for people pauses the goal that it is bound to, and no
/// other: for the reason of its kind, in the words and with the payload that it
/// was given, and people are told.
#[verifier::spinoff_prover]
pub proof fn law_human_gate_pauses_the_bound_goal(
    ctx: GoalAdmissionContext,
    kind: GoalBlockerKind,
    message: String,
    payload: Option<Json>,
    replies: Seq<GoalReply>,
    goal: TaskGoalView,
    usage: Option<GoalUsageTotals>,
    at: usize,
)
    requires
        kind is NeedsUserInput || kind is HumanEscalation,
        ctx.goal_task_id is Some,
        !blank(ctx.goal_task_id->Some_0@),
        find_goal(ctx, ctx.goal_task_id, replies, 0) == StepView::Ready(goal, at),
        goal.task.status is Running || goal.task.status is Paused,
        at < replies.len() <= usize::MAX,
        replies[at as int] == GoalReply::Usage(usage),
    ensures
        ({
            let step = human_gate_steps(ctx, true, kind, message, payload, replies);
            let id = goal.task.id;
            let reason = if kind is NeedsUserInput {
                GoalPauseReason::NeedsUserInput
            } else {
                GoalPauseReason::HumanEscalation
            };
            let told = notice("goal-command-paused", id, budget_summary(goal.goal, usage));
            &&& changes(
                step,
                replies,
                at + 1,
                GoalRequest::PauseIfStatus {
                    task_id: id,
                    expected: goal.task.status,
                    pause: GoalPauseView {
                        reason,
                        description: Some(Text::Plain(message)),
                        blockers: seq![GoalBlocker { kind, message: Text::Plain(message), payload }],
                    },
                },
                complaint("goal-command-error-pause-failed", id),
            )
            &&& made(replies, at + 1) ==> shows(
                step,
                replies,
                at + 2,
                told,
                GoalAdmission {
                    task_id: Some(id),
                    status: TaskStatus::Paused,
                    message: told,
                    continuation_reason: None,
                    continue_goal: false,
                },
            )
        }),
{
}

/// A human gate of another kind, without stores or without a bound goal fails
/// and asks for nothing.
pub proof fn law_human_gate_needs_a_bound_goal(
    ctx: GoalAdmissionContext,
    control_plane: bool,
    kind: GoalBlockerKind,
    message: String,
    payload: Option<Json>,
    replies: Seq<GoalReply>,
)
    requires
        ({
            ||| !(kind is NeedsUserInput) && !(kind is HumanEscalation)
            ||| !control_plane
            ||| ctx.goal_task_id is None
            ||| blank(ctx.goal_task_id->Some_0@)
        }),
    ensures
        human_gate_steps(ctx, control_plane, kind, message, payload, replies) is Fail,
{
}

/// An interrupted goal is paused by its id if it runs. The interruption is
/// settled only once the goal was paused or was seen not to run any more.
#[verifier::spinoff_prover]
pub proof fn law_interrupted_goal_stops(task_id: String, replies: Seq<GoalReply>)
    requires
        !blank(task_id@),
    ensures
        ({
            let step = interruption_steps(task_id, true, replies);
            &&& replies.len() == 0 ==> (step matches StepView::Ask(request) && (request matches GoalRequest::PauseIfStatus {
                task_id: id,
                expected,
                pause,
            } && id == task_id && expected is Running && pause.reason is OperatorPaused && pause.blockers.len() == 1
                && pause.blockers[0].kind is OperatorPause && pause.description is Some))
            &&& replies.len() == 1 && replies[0] == GoalReply::Applied(false) ==> step == StepView::<()>::Ask(
                GoalRequest::ReadTask(task_id),
            )
            &&& made(replies, 0) ==> step == StepView::Ready((), 1)
            &&& replies.len() >= 2 && replies[0] == GoalReply::Applied(false) ==> match replies[1] {
                GoalReply::Task(Some(task)) => if task.status is Running {
                    step is Fail
                } else {
                    step == StepView::Ready((), 2)
                },
                _ => step is Fail,
            }
            &&& step is Ready ==> made(replies, 0) || (replies.len() >= 2 && replies[1] is Task)
        }),
{
}

pub proof fn law_interruption_needs_an_id_and_stores(task_id: String, control_plane: bool, replies: Seq<GoalReply>)
    requires
        blank(task_id@) || !control_plane,
    ensures
        interruption_steps(task_id, control_plane, replies) is Fail,
{
}

/// A goal whose usage could not be accounted for is paused, if it runs, with
/// the cause of the failure; other failures, and goals that do not run, are
/// left alone.
#[verifier::spinoff_prover]
pub proof fn law_accounting_failure_pauses_the_goal(
    task_id: String,
    cause: GoalBudgetUnavailableCause,
    task: TaskRecord,
    goal: crate::goal_task::GoalTaskRecord,
    usage: Option<GoalUsageTotals>,
    replies: Seq<GoalReply>,
)
    requires
        3 <= replies.len() <= usize::MAX,
        replies[0] == GoalReply::Task(Some(task)),
        replies[1] == GoalReply::Goal(Some(goal)),
        replies[2] == GoalReply::Usage(usage),
    ensures
        ({
            let step = accounting_failure_steps(task_id, Some(cause), true, replies);
            let told = notice("goal-command-budget-unavailable", task.id, budget_summary(goal@, usage));
            if task.status is Running {
                &&& changes(
                    step,
                    replies,
                    3,
                    GoalRequest::PauseIfStatus {
                        task_id: task.id,
                        expected: TaskStatus::Running,
                        pause: unavailable_pause(goal@, cause),
                    },
                    complaint("goal-command-error-pause-failed", task.id),
                )
                &&& made(replies, 3) ==> shows(step, replies, 4, told, ())
            } else {
                step == StepView::Ready((), 2)
            }
        }),
        accounting_failure_steps(task_id, Some(cause), true, replies.take(0)) == StepView::<()>::Ask(
            GoalRequest::ReadTask(task_id),
        ),
        accounting_failure_steps(task_id, Some(cause), true, replies.take(1)) == StepView::<()>::Ask(
            GoalRequest::ReadGoal(task_id),
        ),
        task.status is Running ==> accounting_failure_steps(task_id, Some(cause), true, replies.take(2)) == StepView::<
            (),
        >::Ask(GoalRequest::ReadUsage { task_id, access: LedgerAccess::Writable }),
        accounting_failure_steps(task_id, None, true, replies) == StepView::Ready((), 0),
        accounting_failure_steps(task_id, Some(cause), false, replies) == StepView::Ready((), 0),
{
}

} // verus!
