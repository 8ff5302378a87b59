//! What becomes of a goal between its turns.
use vstd::prelude::*;
#[allow(unused_imports)]
use vstd::string::*;

use super::admission::{publish, published};
use super::budget::{
    accounting_pause, budget_summary, goal_accounting_gate_pause, goal_accounting_unavailable_pause, goal_budget_summary,
    reason_for, reason_for_blocker_kind, unavailable_pause, GoalBudgetUnavailableCause, GoalUsageTotals,
};
use super::context::{
    publish_goal_verifier_started, verifying, GoalAdmission, GoalAdmissionContext, GoalTurnEvaluation,
};
use super::flow::{
    applied_reply, await_applied, await_done, await_goal, await_task, await_usage, done_reply, goal_reply, past,
    seen, task_reply, unexpected_reply, usage_reply, GoalReply, GoalRequest, LedgerAccess, Step, StepView,
    VerifierOutcome,
};
use super::lifecycle::{
    admission, goal_pause_message_key, pause_goal_for_known_blocker, pause_goal_for_resolved_task_with_budget, pause_key,
    pause_known_steps, pause_steps, status_message, task_goal_status_message, with_budget,
};
use super::visibility::{about, find_active_goal, find_goal, latest_active_resolved_goal, resolve_goal, tell_about};
use crate::error::{failure, GoalError};
use crate::goal_task::{
    GoalBlocker, GoalBlockerKind, GoalPauseReason, GoalPauseState, GoalPauseView, TaskGoal, TaskGoalView,
};
use crate::message::{label, msg, msg2, Text};
use crate::payload::Json;
use crate::store::error::{phrase, phrase_of};
use crate::task::TaskStatus;
use crate::text::{blank, is_blank};

verus! {

/// A message about a goal and its budget.
fn tell(key: &'static str, task_id: &String, budget: Text) -> (r: Text)
    ensures
        r == with_budget(key, *task_id, budget),
{
    msg2(key, "task_id", Text::Plain(task_id.clone()), "budget", budget)
}

// ---------------------------------------------------------------- outcomes
/// The goal with `id` paused, as an admission says, and shown.
pub open spec fn paused_outcome(id: String, pausing: StepView<GoalAdmission>, replies: Seq<GoalReply>) -> StepView<
    Option<GoalTurnEvaluation>,
> {
    match pausing {
        StepView::Ask(request) => StepView::Ask(request),
        StepView::Fail(error) => StepView::Fail(error),
        StepView::Ready(admission, next) => match published(admission, replies, next) {
            StepView::Ask(request) => StepView::Ask(request),
            StepView::Fail(error) => StepView::Fail(error),
            StepView::Ready(_, next) => StepView::Ready(
                Some(GoalTurnEvaluation::Paused { task_id: id, message: admission.message }),
                next,
            ),
        },
    }
}

fn paused(id: &String, pausing: Step<GoalAdmission>, replies: &Vec<GoalReply>) -> (r: Step<Option<GoalTurnEvaluation>>)
    ensures
        seen(r) == paused_outcome(*id, seen(pausing), replies@),
{
    match pausing {
        Step::Ask(request) => Step::Ask(request),
        Step::Fail(error) => Step::Fail(error),
        Step::Ready(admission, next) => match publish(&admission, replies, next) {
            Step::Ask(request) => Step::Ask(request),
            Step::Fail(error) => Step::Fail(error),
            Step::Ready((), next) => Step::Ready(
                Some(GoalTurnEvaluation::Paused { task_id: id.clone(), message: admission.message }),
                next,
            ),
        },
    }
}

/// The goal goes on, with notes for its next turn.
pub open spec fn continued_outcome(
    goal: TaskGoalView,
    usage: Option<GoalUsageTotals>,
    notes: Text,
    replies: Seq<GoalReply>,
    from: usize,
) -> StepView<Option<GoalTurnEvaluation>> {
    let message = with_budget("goal-command-continuing", goal.task.id, budget_summary(goal.goal, usage));
    match published(admission(goal.task.id, TaskStatus::Running, message, true), replies, from) {
        StepView::Ask(request) => StepView::Ask(request),
        StepView::Fail(error) => StepView::Fail(error),
        StepView::Ready(_, next) => StepView::Ready(
            Some(
                GoalTurnEvaluation::Continue {
                    task_id: goal.task.id,
                    objective: goal.goal.objective,
                    notes,
                    message,
                },
            ),
            next,
        ),
    }
}

fn continued(
    goal: &TaskGoal,
    usage: Option<GoalUsageTotals>,
    notes: Text,
    replies: &Vec<GoalReply>,
    from: usize,
) -> (r: Step<Option<GoalTurnEvaluation>>)
    ensures
        seen(r) == continued_outcome(goal@, usage, notes, replies@, from),
{
    let message = tell("goal-command-continuing", &goal.task.id, goal_budget_summary(&goal.goal, usage));
    let admission = GoalAdmission {
        task_id: Some(goal.task.id.clone()),
        status: TaskStatus::Running,
        message: message.copy(),
        continuation_reason: None,
        continue_goal: true,
    };
    match publish(&admission, replies, from) {
        Step::Ask(request) => Step::Ask(request),
        Step::Fail(error) => Step::Fail(error),
        Step::Ready((), next) => Step::Ready(
            Some(
                GoalTurnEvaluation::Continue {
                    task_id: goal.task.id.clone(),
                    objective: goal.goal.objective.clone(),
                    notes,
                    message,
                },
            ),
            next,
        ),
    }
}

// ---------------------------------------------------------------- completion
/// The notes for a goal whose limits changed under its completion.
pub const LIMITS_CHANGED: &'static str = "The goal budget changed while completion was being recorded; re-evaluate the objective under the current limits.";

/// Recording that a goal is reached, under the limits it was read with. Where
/// the record is refused, the goal is read anew: it pauses if its new limits
/// call for it, goes on while it runs, and is left alone otherwise.
pub open spec fn complete_steps(
    ctx: GoalAdmissionContext,
    current: TaskGoalView,
    summary: String,
    final_usage: Option<GoalUsageTotals>,
    replies: Seq<GoalReply>,
    from: usize,
) -> StepView<Option<GoalTurnEvaluation>> {
    let id = current.task.id;
    match applied_reply(
        GoalRequest::CompleteIfLimits {
            task_id: id,
            token_limit: current.goal.effective_token_limit,
            cost_limit_usd: current.goal.effective_cost_limit_usd,
            summary,
        },
        Some(about("goal-command-error-update-failed", id)),
        replies,
        from,
    ) {
        StepView::Ask(request) => StepView::Ask(request),
        StepView::Fail(error) => StepView::Fail(error),
        StepView::Ready(true, next) => {
            let message = with_budget("goal-command-completed", id, budget_summary(current.goal, final_usage));
            match published(admission(id, TaskStatus::Completed, message, false), replies, next) {
                StepView::Ask(request) => StepView::Ask(request),
                StepView::Fail(error) => StepView::Fail(error),
                StepView::Ready(_, next) => StepView::Ready(
                    Some(GoalTurnEvaluation::Completed { task_id: id, message }),
                    next,
                ),
            }
        },
        StepView::Ready(false, next) => match find_goal(ctx, Some(id), replies, next) {
            StepView::Ask(request) => StepView::Ask(request),
            StepView::Fail(error) => StepView::Fail(error),
            StepView::Ready(refreshed, next) => if !(refreshed.task.status is Running) {
                StepView::Ready(None, next)
            } else {
                match usage_reply(refreshed.task.id, LedgerAccess::Writable, replies, next) {
                    StepView::Ask(request) => StepView::Ask(request),
                    StepView::Fail(error) => StepView::Fail(error),
                    StepView::Ready(usage, next) => match accounting_pause(refreshed.goal, usage) {
                        Some(pause) => paused_outcome(
                            id,
                            pause_steps(refreshed, pause, budget_summary(refreshed.goal, usage), replies, next),
                            replies,
                        ),
                        None => {
                            let message = with_budget(
                                "goal-command-continuing",
                                id,
                                budget_summary(refreshed.goal, usage),
                            );
                            match published(admission(id, TaskStatus::Running, message, true), replies, next) {
                                StepView::Ask(request) => StepView::Ask(request),
                                StepView::Fail(error) => StepView::Fail(error),
                                StepView::Ready(_, next) => StepView::Ready(
                                    Some(
                                        GoalTurnEvaluation::Continue {
                                            task_id: id,
                                            objective: refreshed.goal.objective,
                                            notes: Text::Fixed(LIMITS_CHANGED),
                                            message,
                                        },
                                    ),
                                    next,
                                ),
                            }
                        },
                    },
                }
            },
        },
    }
}

pub fn complete_goal_after_verification(
    ctx: &GoalAdmissionContext,
    current: &TaskGoal,
    candidate_summary: &String,
    final_usage: Option<GoalUsageTotals>,
    replies: &Vec<GoalReply>,
    from: usize,
) -> (r: Step<Option<GoalTurnEvaluation>>)
    ensures
        seen(r) == complete_steps(*ctx, current@, *candidate_summary, final_usage, replies@, from),
{
    let id = &current.task.id;
    let request = GoalRequest::CompleteIfLimits {
        task_id: id.clone(),
        token_limit: current.goal.effective_token_limit,
        cost_limit_usd: current.goal.effective_cost_limit_usd,
        summary: candidate_summary.clone(),
    };
    let (completed, next) = match await_applied(
        request,
        Some(tell_about("goal-command-error-update-failed", id)),
        replies,
        from,
    ) {
        Step::Ask(request) => {
            return Step::Ask(request);
        },
        Step::Fail(error) => {
            return Step::Fail(error);
        },
        Step::Ready(completed, next) => (completed, next),
    };
    if completed {
        let message = tell("goal-command-completed", id, goal_budget_summary(&current.goal, final_usage));
        let admission = GoalAdmission {
            task_id: Some(id.clone()),
            status: TaskStatus::Completed,
            message: message.copy(),
            continuation_reason: None,
            continue_goal: false,
        };
        return match publish(&admission, replies, next) {
            Step::Ask(request) => Step::Ask(request),
            Step::Fail(error) => Step::Fail(error),
            Step::Ready((), next) => Step::Ready(
                Some(GoalTurnEvaluation::Completed { task_id: id.clone(), message }),
                next,
            ),
        };
    }
    let (refreshed, next) = match resolve_goal(ctx, Some(id.clone()), replies, next) {
        Step::Ask(request) => {
            return Step::Ask(request);
        },
        Step::Fail(error) => {
            return Step::Fail(error);
        },
        Step::Ready(goal, next) => (goal, next),
    };
    if !refreshed.is_running() {
        return Step::Ready(None, next);
    }
    let (usage, next) = match await_usage(&refreshed.task.id, LedgerAccess::Writable, replies, next) {
        Step::Ask(request) => {
            return Step::Ask(request);
        },
        Step::Fail(error) => {
            return Step::Fail(error);
        },
        Step::Ready(usage, next) => (usage, next),
    };
    match goal_accounting_gate_pause(&refreshed.goal, usage) {
        Some(pause) => {
            let budget = goal_budget_summary(&refreshed.goal, usage);
            paused(
                id,
                pause_goal_for_resolved_task_with_budget(&refreshed, pause, budget, replies, next),
                replies,
            )
        },
        None => {
            let message = tell("goal-command-continuing", id, goal_budget_summary(&refreshed.goal, usage));
            let admission = GoalAdmission {
                task_id: Some(id.clone()),
                status: TaskStatus::Running,
                message: message.copy(),
                continuation_reason: None,
                continue_goal: true,
            };
            match publish(&admission, replies, next) {
                Step::Ask(request) => Step::Ask(request),
                Step::Fail(error) => Step::Fail(error),
                Step::Ready((), next) => Step::Ready(
                    Some(
                        GoalTurnEvaluation::Continue {
                            task_id: id.clone(),
                            objective: refreshed.goal.objective.clone(),
                            notes: Text::Fixed(LIMITS_CHANGED),
                            message,
                        },
                    ),
                    next,
                ),
            }
        },
    }
}

// ---------------------------------------------------------------- answers
/// What the verifier lets happen: completion, or another turn with its notes.
pub enum Verdict {
    Complete,
    Continue(String),
}

/// What follows once the verifier has answered: the goal is read anew, and its
/// budget is looked at before anything else.
pub open spec fn verdict_steps(
    ctx: GoalAdmissionContext,
    id: String,
    verdict: Verdict,
    summary: String,
    replies: Seq<GoalReply>,
    from: usize,
) -> StepView<Option<GoalTurnEvaluation>> {
    match find_goal(ctx, Some(id), replies, from) {
        StepView::Ask(request) => StepView::Ask(request),
        StepView::Fail(error) => StepView::Fail(error),
        StepView::Ready(current, next) => if !(current.task.status is Running) {
            StepView::Ready(None, next)
        } else {
            match usage_reply(current.task.id, LedgerAccess::Writable, replies, next) {
                StepView::Ask(request) => StepView::Ask(request),
                StepView::Fail(error) => StepView::Fail(error),
                StepView::Ready(usage, next) => match accounting_pause(current.goal, usage) {
                    Some(pause) => paused_outcome(
                        current.task.id,
                        pause_steps(current, pause, budget_summary(current.goal, usage), replies, next),
                        replies,
                    ),
                    None => match verdict {
                        Verdict::Complete => complete_steps(ctx, current, summary, usage, replies, next),
                        Verdict::Continue(notes) => continued_outcome(
                            current,
                            usage,
                            Text::Plain(notes),
                            replies,
                            next,
                        ),
                    },
                },
            }
        },
    }
}

fn after_verdict(
    ctx: &GoalAdmissionContext,
    id: &String,
    verdict: Verdict,
    candidate_summary: &String,
    replies: &Vec<GoalReply>,
    from: usize,
) -> (r: Step<Option<GoalTurnEvaluation>>)
    ensures
        seen(r) == verdict_steps(*ctx, *id, verdict, *candidate_summary, replies@, from),
{
    let (current, next) = match resolve_goal(ctx, Some(id.clone()), replies, from) {
        Step::Ask(request) => {
            return Step::Ask(request);
        },
        Step::Fail(error) => {
            return Step::Fail(error);
        },
        Step::Ready(goal, next) => (goal, next),
    };
    if !current.is_running() {
        return Step::Ready(None, next);
    }
    let (usage, next) = match await_usage(&current.task.id, LedgerAccess::Writable, replies, next) {
        Step::Ask(request) => {
            return Step::Ask(request);
        },
        Step::Fail(error) => {
            return Step::Fail(error);
        },
        Step::Ready(usage, next) => (usage, next),
    };
    match goal_accounting_gate_pause(&current.goal, usage) {
        Some(pause) => {
            let budget = goal_budget_summary(&current.goal, usage);
            paused(
                &current.task.id,
                pause_goal_for_resolved_task_with_budget(&current, pause, budget, replies, next),
                replies,
            )
        },
        None => match verdict {
            Verdict::Complete => complete_goal_after_verification(
                ctx,
                &current,
                candidate_summary,
                usage,
                replies,
                next,
            ),
            Verdict::Continue(notes) => continued(&current, usage, Text::Plain(notes), replies, next),
        },
    }
}

/// What follows a verification that could not be accounted for. Whoever
/// accounts has paused the goal by then; only a goal that still runs is paused
/// here, and a newer state is left alone.
pub open spec fn unaccounted_steps(
    ctx: GoalAdmissionContext,
    id: String,
    pricing: bool,
    replies: Seq<GoalReply>,
    from: usize,
) -> StepView<Option<GoalTurnEvaluation>> {
    match find_goal(ctx, Some(id), replies, from) {
        StepView::Ask(request) => StepView::Ask(request),
        StepView::Fail(error) => StepView::Fail(error),
        StepView::Ready(current, next) => if !(current.task.status is Running) && !(current.task.status is Paused
            && current.goal.pause_reason == Some(GoalPauseReason::BudgetUnavailable)) {
            StepView::Ready(None, next)
        } else {
            match usage_reply(current.task.id, LedgerAccess::Writable, replies, next) {
                StepView::Ask(request) => StepView::Ask(request),
                StepView::Fail(error) => StepView::Fail(error),
                StepView::Ready(usage, next) => if current.task.status is Running {
                    paused_outcome(
                        id,
                        pause_steps(
                            current,
                            unavailable_pause(
                                current.goal,
                                if pricing {
                                    GoalBudgetUnavailableCause::CostPricingUnavailable
                                } else {
                                    GoalBudgetUnavailableCause::UsageUnavailable
                                },
                            ),
                            budget_summary(current.goal, usage),
                            replies,
                            next,
                        ),
                        replies,
                    )
                } else {
                    StepView::Ready(
                        Some(
                            GoalTurnEvaluation::Paused {
                                task_id: id,
                                message: with_budget(
                                    pause_key(GoalPauseReason::BudgetUnavailable),
                                    id,
                                    budget_summary(current.goal, usage),
                                ),
                            },
                        ),
                        next,
                    )
                },
            }
        },
    }
}

fn after_accounting_failure(
    ctx: &GoalAdmissionContext,
    id: &String,
    pricing: bool,
    replies: &Vec<GoalReply>,
    from: usize,
) -> (r: Step<Option<GoalTurnEvaluation>>)
    ensures
        seen(r) == unaccounted_steps(*ctx, *id, pricing, replies@, from),
{
    let (current, next) = match resolve_goal(ctx, Some(id.clone()), replies, from) {
        Step::Ask(request) => {
            return Step::Ask(request);
        },
        Step::Fail(error) => {
            return Step::Fail(error);
        },
        Step::Ready(goal, next) => (goal, next),
    };
    let running = current.is_running();
    if !running {
        let paused_by_accounting = match current.goal.pause_reason {
            Some(GoalPauseReason::BudgetUnavailable) => current.task.status == TaskStatus::Paused,
            _ => false,
        };
        if !paused_by_accounting {
            return Step::Ready(None, next);
        }
    }
    let (usage, next) = match await_usage(&current.task.id, LedgerAccess::Writable, replies, next) {
        Step::Ask(request) => {
            return Step::Ask(request);
        },
        Step::Fail(error) => {
            return Step::Fail(error);
        },
        Step::Ready(usage, next) => (usage, next),
    };
    let budget = goal_budget_summary(&current.goal, usage);
    if running {
        let cause = if pricing {
            GoalBudgetUnavailableCause::CostPricingUnavailable
        } else {
            GoalBudgetUnavailableCause::UsageUnavailable
        };
        let pause = goal_accounting_unavailable_pause(&current.goal, cause);
        paused(id, pause_goal_for_resolved_task_with_budget(&current, pause, budget, replies, next), replies)
    } else {
        let message = tell(goal_pause_message_key(GoalPauseReason::BudgetUnavailable), id, budget);
        Step::Ready(Some(GoalTurnEvaluation::Paused { task_id: id.clone(), message }), next)
    }
}

/// Having the goal judged.
pub open spec fn verify_steps(
    ctx: GoalAdmissionContext,
    goal: TaskGoalView,
    summary: String,
    replies: Seq<GoalReply>,
    from: usize,
) -> StepView<Option<GoalTurnEvaluation>> {
    if from >= replies.len() {
        StepView::Ask(
            GoalRequest::Verify {
                agent: goal.task.agent,
                context: GoalAdmissionContext { goal_task_id: Some(goal.task.id), ..ctx },
                goal: goal.goal,
                summary,
            },
        )
    } else {
        match replies[from as int] {
            GoalReply::Verdict(VerifierOutcome::Complete) => verdict_steps(
                ctx,
                goal.task.id,
                Verdict::Complete,
                summary,
                replies,
                past(from),
            ),
            GoalReply::Verdict(VerifierOutcome::Continue { notes }) => verdict_steps(
                ctx,
                goal.task.id,
                Verdict::Continue(notes),
                summary,
                replies,
                past(from),
            ),
            GoalReply::Verdict(VerifierOutcome::Blocked { pause }) => paused_outcome(
                goal.task.id,
                pause_known_steps(goal, pause@, replies, past(from)),
                replies,
            ),
            GoalReply::Verdict(VerifierOutcome::AccountingFailed { pricing }) => unaccounted_steps(
                ctx,
                goal.task.id,
                pricing,
                replies,
                past(from),
            ),
            _ => StepView::Fail(unexpected_reply()),
        }
    }
}

fn verify(
    ctx: &GoalAdmissionContext,
    goal: &TaskGoal,
    candidate_summary: &String,
    replies: &Vec<GoalReply>,
    from: usize,
) -> (r: Step<Option<GoalTurnEvaluation>>)
    ensures
        seen(r) == verify_steps(*ctx, goal@, *candidate_summary, replies@, from),
{
    if from >= replies.len() {
        let context = ctx.copy().with_goal_task_id(Some(goal.task.id.clone()));
        return Step::Ask(
            GoalRequest::Verify {
                agent: goal.task.agent.clone(),
                context,
                goal: goal.goal.copy(),
                summary: candidate_summary.clone(),
            },
        );
    }
    match &replies[from] {
        GoalReply::Verdict(VerifierOutcome::Complete) => after_verdict(
            ctx,
            &goal.task.id,
            Verdict::Complete,
            candidate_summary,
            replies,
            from + 1,
        ),
        GoalReply::Verdict(VerifierOutcome::Continue { notes }) => after_verdict(
            ctx,
            &goal.task.id,
            Verdict::Continue(notes.clone()),
            candidate_summary,
            replies,
            from + 1,
        ),
        GoalReply::Verdict(VerifierOutcome::Blocked { pause }) => paused(
            &goal.task.id,
            pause_goal_for_known_blocker(goal, pause.copy(), replies, from + 1),
            replies,
        ),
        GoalReply::Verdict(VerifierOutcome::AccountingFailed { pricing }) => after_accounting_failure(
            ctx,
            &goal.task.id,
            *pricing,
            replies,
            from + 1,
        ),
        _ => Step::Fail(GoalError::new(Text::Fixed("the stores sent an unexpected reply"))),
    }
}

/// Evaluating a turn: the budget before the verifier, the verifier before
/// completion.
pub open spec fn evaluate_steps(
    ctx: GoalAdmissionContext,
    control_plane: bool,
    verifier_enabled: bool,
    summary: String,
    replies: Seq<GoalReply>,
) -> StepView<Option<GoalTurnEvaluation>> {
    if !control_plane {
        StepView::Ready(None, 0)
    } else {
        match find_active_goal(ctx, replies, 0) {
            StepView::Ask(request) => StepView::Ask(request),
            StepView::Fail(error) => StepView::Fail(error),
            StepView::Ready(None, next) => StepView::Ready(None, next),
            StepView::Ready(Some(goal), next) => if !(goal.task.status is Running) {
                StepView::Ready(None, next)
            } else {
                match usage_reply(goal.task.id, LedgerAccess::Writable, replies, next) {
                    StepView::Ask(request) => StepView::Ask(request),
                    StepView::Fail(error) => StepView::Fail(error),
                    StepView::Ready(usage, next) => match accounting_pause(goal.goal, usage) {
                        Some(pause) => paused_outcome(
                            goal.task.id,
                            pause_steps(goal, pause, budget_summary(goal.goal, usage), replies, next),
                            replies,
                        ),
                        None => if !verifier_enabled {
                            complete_steps(ctx, goal, summary, usage, replies, next)
                        } else {
                            match done_reply(
                                GoalRequest::Publish(verifying(goal.task.id, budget_summary(goal.goal, usage))),
                                None,
                                replies,
                                next,
                            ) {
                                StepView::Ask(request) => StepView::Ask(request),
                                StepView::Fail(error) => StepView::Fail(error),
                                StepView::Ready(_, next) => verify_steps(ctx, goal, summary, replies, next),
                            }
                        },
                    },
                }
            },
        }
    }
}

/// Evaluates a turn of a goal: the next step, given the replies so far.
pub fn evaluate_goal_turn_with_verifier(
    ctx: &GoalAdmissionContext,
    control_plane: bool,
    verifier_enabled: bool,
    candidate_summary: &String,
    replies: &Vec<GoalReply>,
) -> (r: Step<Option<GoalTurnEvaluation>>)
    ensures
        seen(r) == evaluate_steps(*ctx, control_plane, verifier_enabled, *candidate_summary, replies@),
{
    if !control_plane {
        return Step::Ready(None, 0);
    }
    let (resolved, next) = match latest_active_resolved_goal(ctx, replies, 0) {
        Step::Ask(request) => {
            return Step::Ask(request);
        },
        Step::Fail(error) => {
            return Step::Fail(error);
        },
        Step::Ready(None, next) => {
            return Step::Ready(None, next);
        },
        Step::Ready(Some(goal), next) => (goal, next),
    };
    if !resolved.is_running() {
        return Step::Ready(None, next);
    }
    let (usage, next) = match await_usage(&resolved.task.id, LedgerAccess::Writable, replies, next) {
        Step::Ask(request) => {
            return Step::Ask(request);
        },
        Step::Fail(error) => {
            return Step::Fail(error);
        },
        Step::Ready(usage, next) => (usage, next),
    };
    match goal_accounting_gate_pause(&resolved.goal, usage) {
        Some(pause) => {
            let budget = goal_budget_summary(&resolved.goal, usage);
            return paused(
                &resolved.task.id,
                pause_goal_for_resolved_task_with_budget(&resolved, pause, budget, replies, next),
                replies,
            );
        },
        None => {},
    }
    if !verifier_enabled {
        return complete_goal_after_verification(ctx, &resolved, candidate_summary, usage, replies, next);
    }
    let event = publish_goal_verifier_started(&resolved.task.id, goal_budget_summary(&resolved.goal, usage));
    match await_done(GoalRequest::Publish(event), None, replies, next) {
        Step::Ask(request) => Step::Ask(request),
        Step::Fail(error) => Step::Fail(error),
        Step::Ready((), next) => verify(ctx, &resolved, candidate_summary, replies, next),
    }
}

// ---------------------------------------------------------------- other pauses
/// The pause at a human gate.
pub open spec fn gate_pause_view(kind: GoalBlockerKind, message: String, payload: Option<Json>) -> GoalPauseView {
    GoalPauseView {
        reason: reason_for(kind),
        description: Some(Text::Plain(message)),
        blockers: seq![GoalBlocker { kind, message: Text::Plain(message), payload }],
    }
}

/// Pausing the goal of a turn because a human has to decide.
pub open spec fn human_gate_steps(
    ctx: GoalAdmissionContext,
    control_plane: bool,
    kind: GoalBlockerKind,
    message: String,
    payload: Option<Json>,
    replies: Seq<GoalReply>,
) -> StepView<GoalAdmission> {
    if !(kind is NeedsUserInput || kind is HumanEscalation) {
        StepView::Fail(failure(Text::Fixed("human gate pause requires a human-gate blocker kind")))
    } else if !control_plane {
        StepView::Fail(failure(Text::Fixed("goal control plane unavailable during human gate")))
    } else if ctx.goal_task_id is None || blank(ctx.goal_task_id->Some_0@) {
        StepView::Fail(failure(Text::Fixed("goal human gate has no exact durable task binding")))
    } else {
        match find_goal(ctx, ctx.goal_task_id, replies, 0) {
            StepView::Ask(request) => StepView::Ask(request),
            StepView::Fail(error) => StepView::Fail(error),
            StepView::Ready(goal, next) => match pause_known_steps(
                goal,
                gate_pause_view(kind, message, payload),
                replies,
                next,
            ) {
                StepView::Ask(request) => StepView::Ask(request),
                StepView::Fail(error) => StepView::Fail(error),
                StepView::Ready(admission, next) => match published(admission, replies, next) {
                    StepView::Ask(request) => StepView::Ask(request),
                    StepView::Fail(error) => StepView::Fail(error),
                    StepView::Ready(_, next) => StepView::Ready(admission, next),
                },
            },
        }
    }
}

pub fn pause_current_goal_for_human_gate(
    ctx: &GoalAdmissionContext,
    control_plane: bool,
    kind: GoalBlockerKind,
    message: &String,
    payload: &Option<Json>,
    replies: &Vec<GoalReply>,
) -> (r: Step<GoalAdmission>)
    ensures
        seen(r) == human_gate_steps(*ctx, control_plane, kind, *message, *payload, replies@),
{
    match kind {
        GoalBlockerKind::NeedsUserInput => {},
        GoalBlockerKind::HumanEscalation => {},
        _ => {
            return Step::Fail(
                GoalError::new(Text::Fixed("human gate pause requires a human-gate blocker kind")),
            );
        },
    }
    if !control_plane {
        return Step::Fail(GoalError::new(Text::Fixed("goal control plane unavailable during human gate")));
    }
    let task_id = match &ctx.goal_task_id {
        Some(id) => {
            if is_blank(id.as_str()) {
                return Step::Fail(
                    GoalError::new(Text::Fixed("goal human gate has no exact durable task binding")),
                );
            }
            id.clone()
        },
        None => {
            return Step::Fail(GoalError::new(Text::Fixed("goal human gate has no exact durable task binding")));
        },
    };
    let (goal, next) = match resolve_goal(ctx, Some(task_id), replies, 0) {
        Step::Ask(request) => {
            return Step::Ask(request);
        },
        Step::Fail(error) => {
            return Step::Fail(error);
        },
        Step::Ready(goal, next) => (goal, next),
    };
    let copied = match payload {
        Some(value) => Some(value.copy()),
        None => None,
    };
    let mut blockers: Vec<GoalBlocker> = Vec::new();
    blockers.push(GoalBlocker { kind, message: Text::Plain(message.clone()), payload: copied });
    let pause = GoalPauseState {
        reason: reason_for_blocker_kind(kind),
        description: Some(Text::Plain(message.clone())),
        blockers,
    };
    assert(pause@ =~= gate_pause_view(kind, *message, *payload));
    let (admission, next) = match pause_goal_for_known_blocker(&goal, pause, replies, next) {
        Step::Ask(request) => {
            return Step::Ask(request);
        },
        Step::Fail(error) => {
            return Step::Fail(error);
        },
        Step::Ready(admission, next) => (admission, next),
    };
    match publish(&admission, replies, next) {
        Step::Ask(request) => Step::Ask(request),
        Step::Fail(error) => Step::Fail(error),
        Step::Ready((), next) => Step::Ready(admission, next),
    }
}

/// The pause of a goal whose turn was interrupted.
pub open spec fn interruption_pause() -> GoalPauseView {
    GoalPauseView {
        reason: GoalPauseReason::OperatorPaused,
        description: Some(label("goal-interruption-pause-description")),
        blockers: seq![
            GoalBlocker {
                kind: GoalBlockerKind::OperatorPause,
                message: label("goal-interruption-blocker"),
                payload: None,
            },
        ],
    }
}

pub open spec fn sentence(before: &'static str, id: String, after: &'static str) -> Text {
    Text::Joined("", Box::new(phrase(before, Text::Plain(id), after)))
}

fn say(before: &'static str, id: &String, after: &'static str) -> (r: Text)
    ensures
        r == sentence(before, *id, after),
{
    Text::Joined("", Box::new(phrase_of(before, Text::Plain(id.clone()), after)))
}

/// Pausing a goal whose turn was interrupted; it is an error if the goal runs
/// on.
pub open spec fn interruption_steps(task_id: String, control_plane: bool, replies: Seq<GoalReply>) -> StepView<()> {
    if blank(task_id@) {
        StepView::Fail(failure(Text::Fixed("cannot pause an interrupted goal without an exact task id")))
    } else if !control_plane {
        StepView::Fail(failure(Text::Fixed("goal control plane unavailable during interruption")))
    } else {
        match applied_reply(
            GoalRequest::PauseIfStatus { task_id, expected: TaskStatus::Running, pause: interruption_pause() },
            Some(sentence("pause interrupted goal ", task_id, "")),
            replies,
            0,
        ) {
            StepView::Ask(request) => StepView::Ask(request),
            StepView::Fail(error) => StepView::Fail(error),
            StepView::Ready(true, next) => StepView::Ready((), next),
            StepView::Ready(false, next) => match task_reply(
                GoalRequest::ReadTask(task_id),
                Some(sentence("reload interrupted goal ", task_id, "")),
                replies,
                next,
            ) {
                StepView::Ask(request) => StepView::Ask(request),
                StepView::Fail(error) => StepView::Fail(error),
                StepView::Ready(None, _) => StepView::Fail(
                    failure(sentence("interrupted goal ", task_id, " no longer exists")),
                ),
                StepView::Ready(Some(task), next) => if task.status is Running {
                    StepView::Fail(
                        failure(sentence("interrupted goal ", task_id, " remained running after guarded pause")),
                    )
                } else {
                    StepView::Ready((), next)
                },
            },
        }
    }
}

pub fn pause_running_goal_for_interruption(task_id: &String, control_plane: bool, replies: &Vec<GoalReply>) -> (r: Step<
    (),
>)
    ensures
        seen(r) == interruption_steps(*task_id, control_plane, replies@),
{
    if is_blank(task_id.as_str()) {
        return Step::Fail(
            GoalError::new(Text::Fixed("cannot pause an interrupted goal without an exact task id")),
        );
    }
    if !control_plane {
        return Step::Fail(GoalError::new(Text::Fixed("goal control plane unavailable during interruption")));
    }
    let mut blockers: Vec<GoalBlocker> = Vec::new();
    blockers.push(
        GoalBlocker {
            kind: GoalBlockerKind::OperatorPause,
            message: msg("goal-interruption-blocker"),
            payload: None,
        },
    );
    let pause = GoalPauseState {
        reason: GoalPauseReason::OperatorPaused,
        description: Some(msg("goal-interruption-pause-description")),
        blockers,
    };
    assert(pause@ =~= interruption_pause());
    let request = GoalRequest::PauseIfStatus { task_id: task_id.clone(), expected: TaskStatus::Running, pause };
    let next = match await_applied(request, Some(say("pause interrupted goal ", task_id, "")), replies, 0) {
        Step::Ask(request) => {
            return Step::Ask(request);
        },
        Step::Fail(error) => {
            return Step::Fail(error);
        },
        Step::Ready(true, next) => {
            return Step::Ready((), next);
        },
        Step::Ready(false, next) => next,
    };
    match await_task(
        GoalRequest::ReadTask(task_id.clone()),
        Some(say("reload interrupted goal ", task_id, "")),
        replies,
        next,
    ) {
        Step::Ask(request) => Step::Ask(request),
        Step::Fail(error) => Step::Fail(error),
        Step::Ready(None, _) => Step::Fail(GoalError::new(say("interrupted goal ", task_id, " no longer exists"))),
        Step::Ready(Some(task), next) => if task.status == TaskStatus::Running {
            Step::Fail(GoalError::new(say("interrupted goal ", task_id, " remained running after guarded pause")))
        } else {
            Step::Ready((), next)
        },
    }
}

/// Pausing a goal whose usage could not be accounted for. `cause` is absent
/// where the failure was another one.
pub open spec fn accounting_failure_steps(
    task_id: String,
    cause: Option<GoalBudgetUnavailableCause>,
    control_plane: bool,
    replies: Seq<GoalReply>,
) -> StepView<()> {
    if cause is None || !control_plane {
        StepView::Ready((), 0)
    } else {
        match task_reply(GoalRequest::ReadTask(task_id), None, replies, 0) {
            StepView::Ask(request) => StepView::Ask(request),
            StepView::Fail(error) => StepView::Fail(error),
            StepView::Ready(None, _) => StepView::Fail(failure(Text::Fixed("goal task missing"))),
            StepView::Ready(Some(task), next) => match goal_reply(GoalRequest::ReadGoal(task_id), None, replies, next) {
                StepView::Ask(request) => StepView::Ask(request),
                StepView::Fail(error) => StepView::Fail(error),
                StepView::Ready(None, _) => StepView::Fail(failure(Text::Fixed("goal extension missing"))),
                StepView::Ready(Some(goal), next) => if !(task.status is Running) {
                    StepView::Ready((), next)
                } else {
                    match usage_reply(task_id, LedgerAccess::Writable, replies, next) {
                        StepView::Ask(request) => StepView::Ask(request),
                        StepView::Fail(error) => StepView::Fail(error),
                        StepView::Ready(usage, next) => match pause_steps(
                            TaskGoalView { task, goal },
                            unavailable_pause(goal, cause->Some_0),
                            budget_summary(goal, usage),
                            replies,
                            next,
                        ) {
                            StepView::Ask(request) => StepView::Ask(request),
                            StepView::Fail(error) => StepView::Fail(error),
                            StepView::Ready(admission, next) => published(admission, replies, next),
                        },
                    }
                },
            },
        }
    }
}

pub fn pause_goal_for_accounting_failure(
    task_id: &String,
    cause: Option<GoalBudgetUnavailableCause>,
    control_plane: bool,
    replies: &Vec<GoalReply>,
) -> (r: Step<()>)
    ensures
        seen(r) == accounting_failure_steps(*task_id, cause, control_plane, replies@),
{
    let cause = match cause {
        None => {
            return Step::Ready((), 0);
        },
        Some(cause) => cause,
    };
    if !control_plane {
        return Step::Ready((), 0);
    }
    let (task, next) = match await_task(GoalRequest::ReadTask(task_id.clone()), None, replies, 0) {
        Step::Ask(request) => {
            return Step::Ask(request);
        },
        Step::Fail(error) => {
            return Step::Fail(error);
        },
        Step::Ready(None, _) => {
            return Step::Fail(GoalError::new(Text::Fixed("goal task missing")));
        },
        Step::Ready(Some(task), next) => (task, next),
    };
    let (goal, next) = match await_goal(GoalRequest::ReadGoal(task_id.clone()), None, replies, next) {
        Step::Ask(request) => {
            return Step::Ask(request);
        },
        Step::Fail(error) => {
            return Step::Fail(error);
        },
        Step::Ready(None, _) => {
            return Step::Fail(GoalError::new(Text::Fixed("goal extension missing")));
        },
        Step::Ready(Some(goal), next) => (goal, next),
    };
    let resolved = TaskGoal::new(task, goal);
    if !resolved.is_running() {
        return Step::Ready((), next);
    }
    let (usage, next) = match await_usage(task_id, LedgerAccess::Writable, replies, next) {
        Step::Ask(request) => {
            return Step::Ask(request);
        },
        Step::Fail(error) => {
            return Step::Fail(error);
        },
        Step::Ready(usage, next) => (usage, next),
    };
    let pause = goal_accounting_unavailable_pause(&resolved.goal, cause);
    let budget = goal_budget_summary(&resolved.goal, usage);
    match pause_goal_for_resolved_task_with_budget(&resolved, pause, budget, replies, next) {
        Step::Ask(request) => Step::Ask(request),
        Step::Fail(error) => Step::Fail(error),
        Step::Ready(admission, next) => publish(&admission, replies, next),
    }
}

/// What stands in the way of another turn: nothing, or the state that the goal
/// is in instead.
pub open spec fn autonomous_steps(ctx: GoalAdmissionContext, control_plane: bool, replies: Seq<GoalReply>) -> StepView<
    Option<GoalAdmission>,
> {
    if !control_plane {
        StepView::Ready(None, 0)
    } else {
        match find_active_goal(ctx, replies, 0) {
            StepView::Ask(request) => StepView::Ask(request),
            StepView::Fail(error) => StepView::Fail(error),
            StepView::Ready(None, next) => StepView::Ready(None, next),
            StepView::Ready(Some(goal), next) => match usage_reply(
                goal.task.id,
                LedgerAccess::Writable,
                replies,
                next,
            ) {
                StepView::Ask(request) => StepView::Ask(request),
                StepView::Fail(error) => StepView::Fail(error),
                StepView::Ready(usage, next) => if !(goal.task.status is Running) {
                    StepView::Ready(
                        Some(
                            admission(
                                goal.task.id,
                                goal.task.status,
                                status_message(goal, budget_summary(goal.goal, usage)),
                                false,
                            ),
                        ),
                        next,
                    )
                } else {
                    match accounting_pause(goal.goal, usage) {
                        None => StepView::Ready(None, next),
                        Some(pause) => match pause_steps(
                            goal,
                            pause,
                            budget_summary(goal.goal, usage),
                            replies,
                            next,
                        ) {
                            StepView::Ask(request) => StepView::Ask(request),
                            StepView::Fail(error) => StepView::Fail(error),
                            StepView::Ready(admission, next) => StepView::Ready(Some(admission), next),
                        },
                    }
                },
            },
        }
    }
}

pub fn admit_goal_autonomous_turn(ctx: &GoalAdmissionContext, control_plane: bool, replies: &Vec<GoalReply>) -> (r: Step<
    Option<GoalAdmission>,
>)
    ensures
        seen(r) == autonomous_steps(*ctx, control_plane, replies@),
{
    if !control_plane {
        return Step::Ready(None, 0);
    }
    let (resolved, next) = match latest_active_resolved_goal(ctx, replies, 0) {
        Step::Ask(request) => {
            return Step::Ask(request);
        },
        Step::Fail(error) => {
            return Step::Fail(error);
        },
        Step::Ready(None, next) => {
            return Step::Ready(None, next);
        },
        Step::Ready(Some(goal), next) => (goal, next),
    };
    let (usage, next) = match await_usage(&resolved.task.id, LedgerAccess::Writable, replies, next) {
        Step::Ask(request) => {
            return Step::Ask(request);
        },
        Step::Fail(error) => {
            return Step::Fail(error);
        },
        Step::Ready(usage, next) => (usage, next),
    };
    let budget = goal_budget_summary(&resolved.goal, usage);
    if !resolved.is_running() {
        let message = task_goal_status_message(&resolved, budget);
        return Step::Ready(
            Some(
                GoalAdmission {
                    task_id: Some(resolved.task.id.clone()),
                    status: resolved.task.status,
                    message,
                    continuation_reason: None,
                    continue_goal: false,
                },
            ),
            next,
        );
    }
    match goal_accounting_gate_pause(&resolved.goal, usage) {
        None => Step::Ready(None, next),
        Some(pause) => match pause_goal_for_resolved_task_with_budget(&resolved, pause, budget, replies, next) {
            Step::Ask(request) => Step::Ask(request),
            Step::Fail(error) => Step::Fail(error),
            Step::Ready(admission, next) => Step::Ready(Some(admission), next),
        },
    }
}

} // verus!
