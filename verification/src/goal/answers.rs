//! What the commands about a goal ask for and answer.
use vstd::prelude::*;
#[allow(unused_imports)]
use vstd::string::*;

use super::admission::{admit_steps, command_steps};
use super::budget::{
    accounting_pause, budget_paused, budget_summary, initial_usage, merged_pause, summary_of, unbudgeted_pause,
    CostTracking, GoalUsageTotals, TrackerState,
};
use super::command::{GoalBudgetOverrides, GoalBudgetValue, GoalCommand, GoalCommandAction};
use super::context::{GoalAdmission, GoalAdmissionContext};
use super::flow::{AskedView, GoalReply, GoalRequest, LedgerAccess, StepView};
use super::lifecycle::{
    budget_steps, cancel_found_steps, cancel_steps, command_pause, context_conflict, objective_steps, pause_found_steps,
    relimited_steps, resume_found_steps, resume_steps, start_steps, status_message, status_steps, GoalIdentity, GoalOwner,
};
use super::outcomes::{asks, changes, complaint, made, notice, pause_notice};
use super::policy::{policy_error, resolved_limits, AgentPolicy, GoalPolicy};
use super::visibility::find_goal;
use crate::error::GoalError;
use crate::goal_task::{GoalBlocker, GoalBlockerKind, GoalPauseReason, GoalPauseView, GoalTaskView, TaskGoalView};
use crate::message::{spelled_out, Args, Text};
use crate::task::{TaskRecord, TaskStatus};
use crate::text::contains_text;
use crate::usd::Usd;

verus! {

/// A failure in the words of the catalogue.
pub open spec fn refusal(key: &'static str) -> GoalError {
    GoalError { text: Text::Message(key, Box::new(Args::End)), cause: None }
}

/// An answer about a goal that does not go on now.
pub open spec fn answer(task_id: String, status: TaskStatus, message: Text) -> GoalAdmission {
    GoalAdmission { task_id: Some(task_id), status, message, continuation_reason: None, continue_goal: false }
}

/// An answer about a goal that runs now and wants a turn.
pub open spec fn going_on(task_id: String, message: Text, reason: Option<String>) -> GoalAdmission {
    GoalAdmission {
        task_id: Some(task_id),
        status: TaskStatus::Running,
        message,
        continuation_reason: reason,
        continue_goal: true,
    }
}

/// A notice of a goal, its objective and its budget.
pub open spec fn objective_notice(key: &'static str, task_id: String, objective: String, budget: Text) -> Text {
    Text::Message(
        key,
        Box::new(
            Args::Arg(
                "task_id",
                Text::Plain(task_id),
                Box::new(
                    Args::Arg(
                        "objective",
                        Text::Plain(objective),
                        Box::new(Args::Arg("budget", budget, Box::new(Args::End))),
                    ),
                ),
            ),
        ),
    )
}

pub open spec fn over(status: TaskStatus) -> bool {
    match status {
        TaskStatus::Running => false,
        TaskStatus::Paused => false,
        _ => true,
    }
}

/// The refusal of a command about a goal that has ended names the goal.
pub open spec fn refused_as_over(step: StepView<GoalAdmission>, task_id: String) -> bool {
    step matches StepView::Fail(error) && error.cause is None && (error.text matches Text::Message(key, args) && key
        == "goal-command-error-already-terminal" && (*args matches Args::Arg(name, value, rest) && name == "task_id"
        && value == Text::Plain(task_id)))
}

/// A command is held up by the budget exactly as a turn is, but that without a
/// configuration there is no ledger to miss: then a goal without limits goes
/// on, and one with limits does not, where its usage cannot be read.
pub proof fn law_command_is_held_up_by_the_budget(goal: GoalTaskView, usage: Option<GoalUsageTotals>)
    ensures
        command_pause(goal, true, usage) == accounting_pause(goal, usage),
        usage is Some ==> command_pause(goal, false, usage) == accounting_pause(goal, usage),
        goal.effective_token_limit is None && goal.effective_cost_limit_usd is None ==> command_pause(goal, false, None)
            is None,
        goal.effective_token_limit is Some || goal.effective_cost_limit_usd is Some ==> command_pause(goal, false, None)
            == accounting_pause(goal, None),
{
}

// ---------------------------------------------------------------- resuming
/// A resume reads the usage of the goal first. Where the budget holds the goal
/// up it stays paused, with the budget as one more reason, and the answer says
/// so; otherwise it is resumed under the owner, and only then does the answer
/// say that it runs and goes on, for the reason that was given.
#[verifier::spinoff_prover]
pub proof fn law_resume_says_what_happened(
    ctx: GoalAdmissionContext,
    reason: Option<String>,
    configured: bool,
    owner: GoalOwner,
    current: TaskGoalView,
    usage: Option<GoalUsageTotals>,
    replies: Seq<GoalReply>,
    from: usize,
)
    requires
        from <= replies.len() <= usize::MAX,
    ensures
        ({
            let step = resume_steps(ctx, reason, configured, owner, current, replies, from);
            let id = current.task.id;
            let budget = budget_summary(current.goal, usage);
            if over(current.task.status) {
                refused_as_over(step, id)
            } else {
                &&& asks(
                    step,
                    replies,
                    from as int,
                    GoalRequest::ReadUsage { task_id: id, access: LedgerAccess::Writable },
                )
                &&& replies.len() > from && replies[from as int] == GoalReply::Usage(usage) ==> match command_pause(
                    current.goal,
                    configured,
                    usage,
                ) {
                    Some(pause) => {
                        &&& changes(
                            step,
                            replies,
                            from + 1,
                            GoalRequest::PauseIfStatus {
                                task_id: id,
                                expected: current.task.status,
                                pause: merged_pause(current.goal, pause),
                            },
                            complaint("goal-command-error-resume-failed", id),
                        )
                        &&& made(replies, from + 1) ==> step == StepView::Ready(
                            answer(id, TaskStatus::Paused, pause_notice(pause.reason, id, budget)),
                            (from + 2) as usize,
                        )
                    },
                    None => {
                        &&& changes(
                            step,
                            replies,
                            from + 1,
                            GoalRequest::ResumePaused {
                                task_id: id,
                                owner_pid: owner.pid,
                                boot_id: owner.boot_id,
                                continuation: ctx.continuation_context,
                            },
                            complaint("goal-command-error-update-failed", id),
                        )
                        &&& made(replies, from + 1) ==> step == StepView::Ready(
                            going_on(id, notice("goal-command-resumed", id, budget), reason),
                            (from + 2) as usize,
                        )
                    },
                }
            }
        }),
{
}

/// A command that answers that a goal runs now made the change that lets it run
/// with the last reply it went by.
pub proof fn law_resumed_means_resumed(
    ctx: GoalAdmissionContext,
    reason: Option<String>,
    configured: bool,
    owner: GoalOwner,
    current: TaskGoalView,
    replies: Seq<GoalReply>,
    from: usize,
    answered: GoalAdmission,
    used: usize,
)
    requires
        from <= replies.len() <= usize::MAX,
        resume_steps(ctx, reason, configured, owner, current, replies, from) == StepView::Ready(answered, used),
        answered.continue_goal || answered.status is Running,
    ensures
        from + 2 == used <= replies.len(),
        made(replies, from + 1),
        resume_steps(ctx, reason, configured, owner, current, replies.take(from + 1), from) == StepView::<
            GoalAdmission,
        >::Ask(
            GoalRequest::ResumePaused {
                task_id: current.task.id,
                owner_pid: owner.pid,
                boot_id: owner.boot_id,
                continuation: ctx.continuation_context,
            },
        ),
{
    assert(replies.take(from + 1)[from as int] == replies[from as int]);
}

// ---------------------------------------------------------------- budgets
/// The limit that a command leaves a goal with: the one it has where the
/// command does not mention it, none where it says so, and else the given one.
pub open spec fn limit_after<T>(mentioned: GoalBudgetValue<T>, has: Option<T>, gets: Option<T>) -> bool {
    match mentioned {
        GoalBudgetValue::Default => gets == has,
        GoalBudgetValue::Unlimited => gets is None,
        GoalBudgetValue::Limited(value) => gets == Some(value),
    }
}

/// Every change of limits that a budget command asks for is for the goal in
/// sight, which has not ended, and leaves it each limit that the command does
/// not mention.
#[verifier::spinoff_prover]
pub proof fn law_budget_command_keeps_what_it_does_not_mention(
    ctx: GoalAdmissionContext,
    budgets: GoalBudgetOverrides,
    configured: bool,
    owner: GoalOwner,
    replies: Seq<GoalReply>,
    from: usize,
    request: AskedView,
    current: TaskGoalView,
    at: usize,
)
    requires
        budget_steps(ctx, budgets, configured, owner, replies, from) == StepView::<GoalAdmission>::Ask(request),
        request is UpdateLimits,
        find_goal(ctx, None, replies, from) == StepView::Ready(current, at),
    ensures
        !over(current.task.status),
        request matches GoalRequest::UpdateLimits { task_id, token_limit, cost_limit_usd } && {
            &&& task_id == current.task.id
            &&& limit_after(budgets.token_limit, current.goal.effective_token_limit, token_limit)
            &&& limit_after(budgets.cost_limit_usd, current.goal.effective_cost_limit_usd, cost_limit_usd)
        },
{
}

/// The limits that a goal is left with.
pub open spec fn left_with(budgets: GoalBudgetOverrides, current: TaskGoalView, after: TaskGoalView) -> bool {
    &&& limit_after(budgets.token_limit, current.goal.effective_token_limit, after.goal.effective_token_limit)
    &&& limit_after(budgets.cost_limit_usd, current.goal.effective_cost_limit_usd, after.goal.effective_cost_limit_usd)
    &&& after == (TaskGoalView {
        task: current.task,
        goal: GoalTaskView {
            effective_token_limit: after.goal.effective_token_limit,
            effective_cost_limit_usd: after.goal.effective_cost_limit_usd,
            ..current.goal
        },
    })
}

/// A cost limit is enforced where costs are counted: the configuration asks for
/// it, and the tracker works.
pub open spec fn costs_tracked(tracking: Option<CostTracking>, healthy: Option<bool>) -> bool {
    match tracking {
        None => true,
        Some(tracking) => tracking.enabled && match tracking.tracker {
            None => false,
            Some(tracker) => tracker.enabled && match healthy {
                Some(healthy) => healthy,
                None => tracker.healthy,
            },
        },
    }
}

/// A budget command that mentions a limit changes the limits of the goal in
/// sight. Under a configuration a goal gets, or keeps, a cost limit only where
/// costs are counted. Then the usage is read, and the goal goes on as its new
/// limits say.
#[verifier::spinoff_prover]
pub proof fn law_budget_command_changes_limits(
    ctx: GoalAdmissionContext,
    budgets: GoalBudgetOverrides,
    configured: bool,
    owner: GoalOwner,
    replies: Seq<GoalReply>,
    from: usize,
    current: TaskGoalView,
    after: TaskGoalView,
    tracking: Option<CostTracking>,
    usage: Option<GoalUsageTotals>,
    at: usize,
)
    requires
        !(budgets.token_limit is Default && budgets.cost_limit_usd is Default),
        find_goal(ctx, None, replies, from) == StepView::Ready(current, at),
        at <= replies.len() <= usize::MAX,
        !over(current.task.status),
        left_with(budgets, current, after),
    ensures
        ({
            let step = budget_steps(ctx, budgets, configured, owner, replies, from);
            let id = current.task.id;
            let change: AskedView = GoalRequest::UpdateLimits {
                task_id: id,
                token_limit: after.goal.effective_token_limit,
                cost_limit_usd: after.goal.effective_cost_limit_usd,
            };
            let checked = configured && after.goal.effective_cost_limit_usd is Some;
            let k = if checked {
                at + 1
            } else {
                at as int
            };
            &&& checked ==> asks(step, replies, at as int, GoalRequest::ReadTracking)
            &&& checked && replies.len() > at && replies[at as int] == GoalReply::Tracking(tracking) && !costs_tracked(
                tracking,
                None,
            ) ==> step == StepView::<GoalAdmission>::Fail(refusal("goal-command-error-cost-tracking-required"))
            &&& !checked || (replies.len() > at && replies[at as int] == GoalReply::Tracking(tracking) && costs_tracked(
                tracking,
                None,
            )) ==> {
                &&& asks(step, replies, k, change)
                &&& replies.len() > k && replies[k] is Failed ==> step == StepView::<GoalAdmission>::Fail(
                    GoalError {
                        text: complaint("goal-command-error-budget-failed", id).text,
                        cause: Some(Box::new(replies[k]->Failed_0)),
                    },
                )
                &&& replies.len() > k && replies[k] == GoalReply::Done ==> {
                    &&& asks(
                        step,
                        replies,
                        k + 1,
                        GoalRequest::ReadUsage { task_id: id, access: LedgerAccess::Writable },
                    )
                    &&& replies.len() > k + 1 && replies[k + 1] == GoalReply::Usage(usage) ==> step == relimited_steps(
                        ctx,
                        after,
                        configured,
                        owner,
                        usage,
                        replies,
                        (k + 2) as usize,
                    )
                }
            }
        }),
{
}

/// A budget command that mentions no limit, or is about a goal that has ended,
/// is refused.
pub proof fn law_empty_budget_command_is_refused(
    ctx: GoalAdmissionContext,
    budgets: GoalBudgetOverrides,
    configured: bool,
    owner: GoalOwner,
    replies: Seq<GoalReply>,
    from: usize,
    current: TaskGoalView,
    at: usize,
)
    ensures
        budgets.token_limit is Default && budgets.cost_limit_usd is Default ==> budget_steps(
            ctx,
            budgets,
            configured,
            owner,
            replies,
            from,
        ) == StepView::<GoalAdmission>::Fail(refusal("goal-command-error-missing-budget")),
        !(budgets.token_limit is Default && budgets.cost_limit_usd is Default) && find_goal(ctx, None, replies, from)
            == StepView::Ready(current, at) && over(current.task.status) ==> refused_as_over(
            budget_steps(ctx, budgets, configured, owner, replies, from),
            current.task.id,
        ),
{
}

/// Once limits were changed: a goal that they hold up is paused, on top of what
/// holds it up already; a goal that the budget has no part in pausing stays as
/// it is; a pause that is the budget's alone is lifted and the goal resumes;
/// and of any other pause the budget's part is taken away.
#[verifier::spinoff_prover]
pub proof fn law_new_limits_take_effect(
    ctx: GoalAdmissionContext,
    goal: TaskGoalView,
    configured: bool,
    owner: GoalOwner,
    usage: Option<GoalUsageTotals>,
    replies: Seq<GoalReply>,
    from: usize,
)
    requires
        from <= replies.len() <= usize::MAX,
    ensures
        ({
            let step = relimited_steps(ctx, goal, configured, owner, usage, replies, from);
            let id = goal.task.id;
            let budget = budget_summary(goal.goal, usage);
            match command_pause(goal.goal, configured, usage) {
                Some(pause) => {
                    &&& changes(
                        step,
                        replies,
                        from as int,
                        GoalRequest::PauseIfStatus {
                            task_id: id,
                            expected: goal.task.status,
                            pause: merged_pause(goal.goal, pause),
                        },
                        complaint("goal-command-error-budget-failed", id),
                    )
                    &&& made(replies, from as int) ==> step == StepView::Ready(
                        answer(id, TaskStatus::Paused, notice("goal-command-budget-updated-paused", id, budget)),
                        (from + 1) as usize,
                    )
                },
                None => if goal.task.status is Paused && budget_paused(goal.goal) {
                    match unbudgeted_pause(goal.goal) {
                        Some(rest) => {
                            &&& changes(
                                step,
                                replies,
                                from as int,
                                GoalRequest::PauseIfStatus {
                                    task_id: id,
                                    expected: TaskStatus::Paused,
                                    pause: rest,
                                },
                                complaint("goal-command-error-budget-failed", id),
                            )
                            &&& made(replies, from as int) ==> (step matches StepView::Ready(answered, used) && used
                                == from + 1 && answered.task_id == Some(id) && answered.status is Paused
                                && !answered.continue_goal && answered.continuation_reason is None && answered.message
                                == Text::Message(
                                "goal-command-budget-updated-paused-blocked",
                                Box::new(
                                    Args::Arg(
                                        "task_id",
                                        Text::Plain(id),
                                        Box::new(
                                            Args::Arg(
                                                "blockers",
                                                summary_of(rest.blockers)->Some_0,
                                                Box::new(Args::Arg("budget", budget, Box::new(Args::End))),
                                            ),
                                        ),
                                    ),
                                ),
                            ))
                        },
                        None => {
                            &&& changes(
                                step,
                                replies,
                                from as int,
                                GoalRequest::ResumePaused {
                                    task_id: id,
                                    owner_pid: owner.pid,
                                    boot_id: owner.boot_id,
                                    continuation: ctx.continuation_context,
                                },
                                complaint("goal-command-error-update-failed", id),
                            )
                            &&& made(replies, from as int) ==> step == StepView::Ready(
                                going_on(id, notice("goal-command-budget-updated-resumed", id, budget), None),
                                (from + 1) as usize,
                            )
                        },
                    }
                } else {
                    step == StepView::Ready(
                        answer(id, goal.task.status, notice("goal-command-budget-updated", id, budget)),
                        from,
                    )
                },
            }
        }),
{
    if unbudgeted_pause(goal.goal) is Some {
        super::budget::law_removal_keeps_other_blockers(goal.goal);
    }
}

// ---------------------------------------------------------------- other commands
/// A change of the objective is for the goal in sight and for it alone; the
/// answer shows the new objective and leaves the status as it was.
#[verifier::spinoff_prover]
pub proof fn law_objective_is_replaced(
    ctx: GoalAdmissionContext,
    objective: String,
    replies: Seq<GoalReply>,
    from: usize,
    current: TaskGoalView,
    usage: Option<GoalUsageTotals>,
    at: usize,
)
    requires
        find_goal(ctx, None, replies, from) == StepView::Ready(current, at),
        at <= replies.len() <= usize::MAX,
    ensures
        ({
            let step = objective_steps(ctx, objective, replies, from);
            let id = current.task.id;
            if over(current.task.status) {
                refused_as_over(step, id)
            } else {
                &&& asks(step, replies, at as int, GoalRequest::UpdateObjective { task_id: id, objective })
                &&& replies.len() > at && replies[at as int] is Failed ==> step == StepView::<GoalAdmission>::Fail(
                    GoalError {
                        text: complaint("goal-command-error-update-failed", id).text,
                        cause: Some(Box::new(replies[at as int]->Failed_0)),
                    },
                )
                &&& replies.len() > at && replies[at as int] == GoalReply::Done ==> {
                    &&& asks(
                        step,
                        replies,
                        at + 1,
                        GoalRequest::ReadUsage { task_id: id, access: LedgerAccess::Writable },
                    )
                    &&& replies.len() > at + 1 && replies[at + 1] == GoalReply::Usage(usage) ==> step
                        == StepView::Ready(
                        answer(
                            id,
                            current.task.status,
                            objective_notice(
                                "goal-command-objective-updated",
                                id,
                                objective,
                                budget_summary(current.goal, usage),
                            ),
                        ),
                        (at + 2) as usize,
                    )
                }
            }
        }),
{
}

/// Showing a goal shows the goal in sight, as it is, with what an open ledger
/// says of it.
#[verifier::spinoff_prover]
pub proof fn law_status_shows_the_goal(
    ctx: GoalAdmissionContext,
    task_id: Option<String>,
    replies: Seq<GoalReply>,
    from: usize,
    goal: TaskGoalView,
    usage: Option<GoalUsageTotals>,
    at: usize,
)
    requires
        find_goal(ctx, task_id, replies, from) == StepView::Ready(goal, at),
        at <= replies.len() <= usize::MAX,
    ensures
        asks(
            status_steps(ctx, task_id, replies, from),
            replies,
            at as int,
            GoalRequest::ReadUsage { task_id: goal.task.id, access: LedgerAccess::IfReady },
        ),
        replies.len() > at && replies[at as int] == GoalReply::Usage(usage) ==> status_steps(
            ctx,
            task_id,
            replies,
            from,
        ) == StepView::Ready(
            answer(goal.task.id, goal.task.status, status_message(goal, budget_summary(goal.goal, usage))),
            (at + 1) as usize,
        ),
{
}

/// The state of a goal in words names the goal, its status, its objective and
/// its budget in this order; a pause adds its reason and its blockers.
pub proof fn law_status_is_complete(goal: TaskGoalView, budget: Text)
    ensures
        status_message(goal, budget) matches Text::Message(key, args) && (*args matches Args::Arg(n1, v1, a1) && n1
            == "task_id" && v1 == Text::Plain(goal.task.id) && (*a1 matches Args::Arg(n2, v2, a2) && n2 == "status"
            && v2 == Text::Message(super::budget::status_key(goal.task.status), Box::new(Args::End)) && (
        *a2 matches Args::Arg(n3, v3, a3) && n3 == "objective" && v3 == Text::Plain(goal.goal.objective) && {
            let last = Args::Arg("budget", budget, Box::new(Args::End));
            match goal.goal.pause_reason {
                None => key == "goal-command-status" && *a3 == last,
                Some(reason) => *a3 matches Args::Arg(n4, v4, a4) && n4 == "reason" && v4 == Text::Message(
                    super::budget::pause_reason_key(reason),
                    Box::new(Args::End),
                ) && if goal.goal.blockers.len() == 0 {
                    key == "goal-command-status-paused" && *a4 == last
                } else {
                    key == "goal-command-status-paused-blocked" && *a4 == Args::Arg(
                        "blockers",
                        summary_of(goal.goal.blockers)->Some_0,
                        Box::new(last),
                    )
                },
            }
        }))),
{
}

/// Cancelling ends the goal in the state it was read in, by the controller, and
/// says so only once it was done.
#[verifier::spinoff_prover]
pub proof fn law_cancel_ends_the_goal(
    current: TaskGoalView,
    replies: Seq<GoalReply>,
    from: usize,
    usage: Option<GoalUsageTotals>,
)
    requires
        from <= replies.len() <= usize::MAX,
    ensures
        ({
            let step = cancel_steps(current, replies, from);
            let id = current.task.id;
            if over(current.task.status) {
                refused_as_over(step, id)
            } else {
                &&& changes(
                    step,
                    replies,
                    from as int,
                    GoalRequest::CancelIfStatus {
                        task_id: id,
                        expected: current.task.status,
                        reason: Text::Message("goal-terminal-reason-cancelled-by-controller", Box::new(Args::End)),
                    },
                    complaint("goal-command-error-update-failed", id),
                )
                &&& made(replies, from as int) ==> asks(
                    step,
                    replies,
                    from + 1,
                    GoalRequest::ReadUsage { task_id: id, access: LedgerAccess::Writable },
                )
                &&& made(replies, from as int) && replies.len() > from + 1 && replies[from + 1] == GoalReply::Usage(
                    usage,
                ) ==> step == StepView::Ready(
                    answer(
                        id,
                        TaskStatus::Cancelled,
                        notice("goal-command-cancelled", id, budget_summary(current.goal, usage)),
                    ),
                    (from + 2) as usize,
                )
            }
        }),
{
}

/// A command works on the goal that is in sight: the one it names or the
/// latest, and on nothing where that goal cannot be had.
pub proof fn law_commands_work_on_the_goal_in_sight(
    ctx: GoalAdmissionContext,
    task_id: Option<String>,
    reason: Option<String>,
    configured: bool,
    owner: GoalOwner,
    pause: GoalPauseView,
    usage: Option<GoalUsageTotals>,
    replies: Seq<GoalReply>,
    from: usize,
)
    ensures
        match find_goal(ctx, task_id, replies, from) {
            StepView::Ready(goal, at) => {
                &&& cancel_found_steps(ctx, task_id, replies, from) == cancel_steps(goal, replies, at)
                &&& at <= replies.len() <= usize::MAX ==> asks(
                    pause_found_steps(ctx, task_id, pause, replies, from),
                    replies,
                    at as int,
                    GoalRequest::ReadUsage { task_id: goal.task.id, access: LedgerAccess::Writable },
                )
                &&& at < replies.len() <= usize::MAX && replies[at as int] == GoalReply::Usage(usage) ==> {
                    if over(goal.task.status) {
                        refused_as_over(pause_found_steps(ctx, task_id, pause, replies, from), goal.task.id)
                    } else {
                        &&& changes(
                            pause_found_steps(ctx, task_id, pause, replies, from),
                            replies,
                            at + 1,
                            GoalRequest::PauseIfStatus { task_id: goal.task.id, expected: goal.task.status, pause },
                            complaint("goal-command-error-pause-failed", goal.task.id),
                        )
                        &&& made(replies, at + 1) ==> pause_found_steps(ctx, task_id, pause, replies, from)
                            == StepView::Ready(
                            answer(
                                goal.task.id,
                                TaskStatus::Paused,
                                pause_notice(pause.reason, goal.task.id, budget_summary(goal.goal, usage)),
                            ),
                            (at + 2) as usize,
                        )
                    }
                }
            },
            StepView::Ask(request) => {
                &&& cancel_found_steps(ctx, task_id, replies, from) == StepView::<GoalAdmission>::Ask(request)
                &&& pause_found_steps(ctx, task_id, pause, replies, from) == StepView::<GoalAdmission>::Ask(request)
                &&& status_steps(ctx, task_id, replies, from) == StepView::<GoalAdmission>::Ask(request)
            },
            StepView::Fail(error) => {
                &&& cancel_found_steps(ctx, task_id, replies, from) == StepView::<GoalAdmission>::Fail(error)
                &&& pause_found_steps(ctx, task_id, pause, replies, from) == StepView::<GoalAdmission>::Fail(error)
                &&& status_steps(ctx, task_id, replies, from) == StepView::<GoalAdmission>::Fail(error)
            },
        },
        match find_goal(ctx, None, replies, from) {
            StepView::Ready(goal, at) => resume_found_steps(ctx, reason, configured, owner, replies, from)
                == resume_steps(ctx, reason, configured, owner, goal, replies, at),
            StepView::Ask(request) => resume_found_steps(ctx, reason, configured, owner, replies, from) == StepView::<
                GoalAdmission,
            >::Ask(request),
            StepView::Fail(error) => resume_found_steps(ctx, reason, configured, owner, replies, from) == StepView::<
                GoalAdmission,
            >::Fail(error),
        },
{
}

// ---------------------------------------------------------------- starting
/// The goal that a start inserts: its own agent, route and principal, the owner
/// that starts it, no session, no epoch and nothing used up; its objective, its
/// limits, and nothing outstanding.
pub open spec fn is_new_goal(
    ctx: GoalAdmissionContext,
    objective: String,
    token_limit: Option<u64>,
    cost_limit: Option<Usd>,
    identity: GoalIdentity,
    task: TaskRecord,
    goal: GoalTaskView,
) -> bool {
    &&& task.id == identity.task_id
    &&& task.kind is Goal
    &&& task.agent == ctx.agent_alias
    &&& task.originator_route == ctx.originator_route
    &&& task.principal_id == ctx.principal_id
    &&& task.owner_pid == identity.owner.pid
    &&& task.owner_boot_id == identity.owner.boot_id
    &&& task.started_at == identity.started_at
    &&& task.finished_at is None
    &&& task.session_id is None
    &&& task.parent_id is None
    &&& task.heartbeat_at is None
    &&& task.idem_key is None
    &&& task.depth == 0
    &&& task.execution_epoch == 0
    &&& !task.delivered
    &&& goal.task_id == identity.task_id
    &&& goal.objective == objective
    &&& goal.effective_token_limit == token_limit
    &&& goal.effective_cost_limit_usd == cost_limit
    &&& goal.pending_call_id is None
    &&& goal.pending_call_epoch is None
    &&& goal.pending_tool_batch_id is None
    &&& goal.pending_tool_epoch is None
    &&& goal.accounting_state is Complete
}

/// The start of a goal, step by step: the ledger under a configuration, the
/// tracking of costs for a cost limit, that no goal is active in the context,
/// the insertion; and the answer says whether it runs.
#[verifier::spinoff_prover]
pub proof fn law_start_inserts_the_goal(
    ctx: GoalAdmissionContext,
    objective: String,
    token_limit: Option<u64>,
    cost_limit: Option<Usd>,
    configured: bool,
    identity: GoalIdentity,
    replies: Seq<GoalReply>,
    ledger: Option<TrackerState>,
    tracking: Option<CostTracking>,
)
    requires
        replies.len() <= usize::MAX,
        configured && replies.len() > 0 ==> replies[0] == GoalReply::Ledger(ledger),
        configured && cost_limit is Some && replies.len() > 1 ==> replies[1] == GoalReply::Tracking(tracking),
    ensures
        ({
            let step = start_steps(ctx, objective, token_limit, cost_limit, configured, identity, replies, 0);
            let healthy = ledger is Some && ledger->Some_0.healthy;
            let checked = configured && cost_limit is Some;
            let k: int = if checked {
                2
            } else if configured {
                1
            } else {
                0
            };
            &&& configured ==> asks(step, replies, 0, GoalRequest::ReadLedger)
            &&& checked ==> asks(step, replies, 1, GoalRequest::ReadTracking)
            &&& checked && replies.len() >= 2 && !costs_tracked(tracking, Some(healthy)) ==> step == StepView::<
                GoalAdmission,
            >::Fail(refusal("goal-command-error-cost-tracking-required"))
            &&& replies.len() >= k && (checked ==> costs_tracked(tracking, Some(healthy))) ==> {
                &&& asks(
                    step,
                    replies,
                    k,
                    GoalRequest::LatestActive {
                        agent: ctx.agent_alias,
                        route: ctx.originator_route,
                        principal: ctx.principal_id,
                    },
                )
                &&& replies.len() > k ==> match replies[k] {
                    GoalReply::Task(Some(active)) => step == StepView::<GoalAdmission>::Fail(
                        complaint("goal-command-error-active-goal-exists", active.id),
                    ),
                    GoalReply::Task(None) => {
                        &&& replies.len() == k + 1 ==> (step matches StepView::Ask(request) && (
                        request matches GoalRequest::Create { task, goal, continuation } && {
                            &&& is_new_goal(ctx, objective, token_limit, cost_limit, identity, task, goal)
                            &&& continuation == ctx.continuation_context
                            &&& started_as(task.status, goal, configured, ledger)
                        }))
                        &&& replies.len() > k + 1 && replies[k + 1] == GoalReply::Done ==> (
                        step matches StepView::Ready(answered, used) && {
                            &&& used == k + 2
                            &&& answered.task_id == Some(identity.task_id)
                            &&& answered.continuation_reason is None
                            &&& answered.continue_goal == (answered.status is Running)
                            &&& answered.status is Running || answered.status is Paused
                            &&& (answered.status is Paused) == (configured && !healthy || runs_into_its_limits(
                                token_limit,
                                cost_limit,
                                configured,
                                ledger,
                            ))
                            &&& answered.message matches Text::Message(key, args) && key == (
                            if answered.status is Running {
                                "goal-command-started"
                            } else {
                                "goal-command-started-budget-unavailable"
                            }) && (*args matches Args::Arg(n1, v1, a1) && n1 == "task_id" && v1 == Text::Plain(
                                identity.task_id,
                            ) && (*a1 matches Args::Arg(n2, v2, a2) && n2 == "objective" && v2 == Text::Plain(
                                objective,
                            ) && (*a2 matches Args::Arg(n3, v3, _) && n3 == "budget" && (
                            forall|goal: GoalTaskView|
                                goal.effective_token_limit == token_limit && goal.effective_cost_limit_usd == cost_limit
                                    ==> v3 == #[trigger] budget_summary(goal, initial_usage(configured, ledger))))))
                        })
                        &&& replies.len() > k + 1 ==> (replies[k + 1] matches GoalReply::Failed(error) ==> step
                            == StepView::<GoalAdmission>::Fail(
                            if context_conflict(error) {
                                refusal("goal-command-error-active-goal-conflict")
                            } else {
                                GoalError {
                                    text: refusal("goal-command-error-start-failed").text,
                                    cause: Some(Box::new(error)),
                                }
                            },
                        ))
                    },
                    GoalReply::Failed(error) => step == StepView::<GoalAdmission>::Fail(
                        GoalError {
                            text: refusal("goal-command-error-active-goal-lookup-failed").text,
                            cause: Some(Box::new(error)),
                        },
                    ),
                    _ => step is Fail,
                }
            }
        }),
{
}

/// A failure is a conflict of contexts if it, or what caused it, names the index
/// of active goals' contexts.
pub proof fn law_conflict_is_found_in_the_chain(text: Text, cause: Option<GoalError>)
    ensures
        ({
            let named = spelled_out(text) matches Some(words) && contains_text(words, "idx_tasks_active_goal_context"@);
            match cause {
                None => context_conflict(GoalError { text, cause: None }) == named,
                Some(cause) => context_conflict(GoalError { text, cause: Some(Box::new(cause)) }) == (named
                    || context_conflict(cause)),
            }
        }),
{
}

/// A goal with nothing used is over its limits only if a limit is zero or
/// below, or if costs cannot be relied upon.
pub open spec fn runs_into_its_limits(
    token_limit: Option<u64>,
    cost_limit: Option<Usd>,
    configured: bool,
    ledger: Option<TrackerState>,
) -> bool {
    configured && ({
        ||| token_limit == Some(0u64)
        ||| cost_limit matches Some(limit) && ((ledger is Some && !ledger->Some_0.enabled) || (Usd {
            bits: 0,
        }).at_least(limit))
    })
}

/// A goal starts running; under a configuration it starts paused where the
/// ledger is of no use or a limit is reached from the outset, and its record
/// says why.
pub open spec fn started_as(
    status: TaskStatus,
    goal: GoalTaskView,
    configured: bool,
    ledger: Option<TrackerState>,
) -> bool {
    let unusable = configured && !(ledger is Some && ledger->Some_0.healthy);
    let reached = !unusable && runs_into_its_limits(
        goal.effective_token_limit,
        goal.effective_cost_limit_usd,
        configured,
        ledger,
    );
    if unusable || reached {
        &&& status is Paused
        &&& goal.pause_reason matches Some(reason) && (unusable ==> reason is BudgetUnavailable)
        &&& goal.pause_description is Some
        &&& goal.blockers.len() == 1
        &&& goal.blockers[0].kind is Budget
    } else {
        &&& status is Running
        &&& goal.pause_reason is None
        &&& goal.pause_description is None
        &&& goal.blockers.len() == 0
    }
}

// ---------------------------------------------------------------- commands
/// Each command does what its name says, with what it was given: a start takes
/// its objective and limits, an objective and a budget their values, a pause
/// its explanation, a resume its reason, and those that can name a goal are
/// about the goal that they name.
pub proof fn law_commands_do_what_they_say(
    ctx: GoalAdmissionContext,
    command: GoalCommand,
    policy: GoalPolicy,
    identity: GoalIdentity,
    replies: Seq<GoalReply>,
)
    ensures
        ({
            let step = command_steps(ctx, command, policy, identity, replies);
            match command.action {
                GoalCommandAction::Help => step is Ready,
                GoalCommandAction::Start => match command.objective {
                    Some(objective) => exists|tokens: Option<u64>, cost: Option<Usd>|
                        {
                            &&& #[trigger] limit_after(command.budgets.token_limit, policy.token_budget, tokens)
                            &&& #[trigger] limit_after(command.budgets.cost_limit_usd, policy.cost_budget_usd, cost)
                            &&& step == start_steps(ctx, objective, tokens, cost, true, identity, replies, 0)
                        },
                    None => step == StepView::<GoalAdmission>::Fail(refusal("goal-command-error-missing-objective")),
                },
                GoalCommandAction::Objective => match command.objective {
                    Some(objective) => step == objective_steps(ctx, objective, replies, 0),
                    None => step == StepView::<GoalAdmission>::Fail(refusal("goal-command-error-missing-objective")),
                },
                GoalCommandAction::Status => step == status_steps(ctx, command.task_id, replies, 0),
                GoalCommandAction::Budget => step == budget_steps(
                    ctx,
                    command.budgets,
                    true,
                    identity.owner,
                    replies,
                    0,
                ),
                GoalCommandAction::Pause => step == pause_found_steps(
                    ctx,
                    command.task_id,
                    GoalPauseView {
                        reason: GoalPauseReason::OperatorPaused,
                        description: match command.objective {
                            Some(words) => Some(Text::Plain(words)),
                            None => None,
                        },
                        blockers: match command.objective {
                            Some(words) => seq![
                                GoalBlocker {
                                    kind: GoalBlockerKind::OperatorPause,
                                    message: Text::Plain(words),
                                    payload: None,
                                },
                            ],
                            None => Seq::empty(),
                        },
                    },
                    replies,
                    0,
                ),
                GoalCommandAction::Resume => step == resume_found_steps(
                    ctx,
                    command.resume_reason,
                    true,
                    identity.owner,
                    replies,
                    0,
                ),
                GoalCommandAction::Cancel => step == cancel_found_steps(ctx, command.task_id, replies, 0),
            }
        }),
{
    let limits = resolved_limits(policy, command.budgets);
    assert(limit_after(command.budgets.token_limit, policy.token_budget, limits.0));
    assert(limit_after(command.budgets.cost_limit_usd, policy.cost_budget_usd, limits.1));
}

/// Help is answered at once, under the policy alone; any other command needs
/// stores. A command that lets its goal go on binds the live turn to exactly
/// that goal, and is refused where that cannot be done; and what it led to is
/// shown before it is answered.
#[verifier::spinoff_prover]
pub proof fn law_admitted_command_binds_and_shows(
    ctx: GoalAdmissionContext,
    command: GoalCommand,
    policy: GoalPolicy,
    agent: Option<AgentPolicy>,
    channel_owned: bool,
    control_plane: bool,
    in_scope: bool,
    identity: GoalIdentity,
    replies: Seq<GoalReply>,
    admission: GoalAdmission,
    at: usize,
)
    requires
        policy_error(ctx, policy, agent, channel_owned) is None,
        replies.len() <= usize::MAX,
    ensures
        ({
            let step = admit_steps(
                ctx,
                command,
                policy,
                agent,
                channel_owned,
                control_plane,
                in_scope,
                false,
                identity,
                replies,
            );
            if command.action is Help {
                step == StepView::Ready(
                    GoalAdmission {
                        task_id: None,
                        status: TaskStatus::Running,
                        message: Text::Message("goal-command-help", Box::new(Args::End)),
                        continuation_reason: None,
                        continue_goal: false,
                    },
                    0,
                )
            } else if !control_plane {
                step == StepView::<GoalAdmission>::Fail(refusal("goal-command-error-control-plane-unavailable"))
            } else {
                match command_steps(ctx, command, policy, identity, replies) {
                    StepView::Ask(request) => step == StepView::<GoalAdmission>::Ask(request),
                    StepView::Fail(error) => step == StepView::<GoalAdmission>::Fail(error),
                    StepView::Ready(done, next) => done == admission && next == at && at <= replies.len() ==> {
                        let binds = admission.continue_goal && in_scope;
                        let k = if binds {
                            at + 1
                        } else {
                            at as int
                        };
                        &&& binds && admission.task_id is None ==> step is Fail
                        &&& binds && admission.task_id is Some ==> {
                            &&& asks(step, replies, at as int, GoalRequest::Bind(admission.task_id->Some_0))
                            &&& replies.len() > at && !made(replies, at as int) ==> step is Fail
                        }
                        &&& !binds || (admission.task_id is Some && made(replies, at as int)) ==> {
                            &&& asks(step, replies, k, super::outcomes::update(admission.message))
                            &&& replies.len() > k && replies[k] == GoalReply::Done ==> step == StepView::Ready(
                                admission,
                                (k + 1) as usize,
                            )
                            &&& replies.len() > k && replies[k] != GoalReply::Done ==> step is Fail
                        }
                    },
                }
            }
        }),
{
}

} // verus!
