//! Starting, showing, changing, pausing, resuming and cancelling goals.
use vstd::prelude::*;
#[allow(unused_imports)]
use vstd::string::*;

use super::budget::{
    accounting_pause, blockers_summary, budget_paused, budget_summary, ensure_cost_budget_tracking_available,
    gate_pause, goal_accounting_gate_pause, goal_budget_gate_pause, goal_budget_summary,
    goal_usage_ledger_gate_pause, has_budget_pause, initial_goal_usage_totals, initial_usage, ledger_pause,
    merge_budget_pause, merged_pause, opt_pause, pause_reason_key, pause_reason_label, remove_budget_pause,
    status_key, summary_of, task_status_label, tracking_missing, tracking_required, unbudgeted_pause,
    GoalUsageTotals,
};
use super::command::{GoalBudgetOverrides, GoalBudgetValue};
use super::context::{GoalAdmission, GoalAdmissionContext};
use super::flow::{
    applied_reply, await_applied, await_done, await_ledger, await_task, await_tracking, await_usage, done_reply,
    ledger_reply, seen, task_reply, tracking_reply, usage_reply, GoalReply, GoalRequest, LedgerAccess, Step,
    StepView,
};
use super::policy::{choose_cost, choose_tokens, chosen};
use super::visibility::{about, ask_latest_active, find_goal, latest_active, resolve_goal, tell_about};
use crate::clock::{fresh_uuid, is_timestamp, now_rfc3339, uuid_char};
use crate::error::{failure, in_context, GoalError};
use crate::goal_task::{
    copy_continuation, with_limits, GoalAccountingState, GoalPauseReason, GoalPauseState, GoalPauseView,
    GoalTaskRecord, GoalTaskView, TaskGoal, TaskGoalView,
};
use crate::message::{label, message2, message3, message4, msg, msg2, msg3, msg4, spelled_out, Args, Text};
use crate::task::{TaskKind, TaskRecord, TaskStatus};
use crate::text::{contains, contains_text};
use crate::usd::Usd;

verus! {

/// Who runs goals: a process and its boot.
#[derive(Debug, PartialEq, Eq)]
pub struct GoalOwner {
    pub pid: u32,
    pub boot_id: String,
}

/// What a new goal takes from its surroundings.
#[derive(Debug, PartialEq, Eq)]
pub struct GoalIdentity {
    pub task_id: String,
    pub started_at: String,
    pub owner: GoalOwner,
}

impl GoalIdentity {
    /// A fresh identity and the time, for a goal of this process. Which they
    /// are depends on chance and on the clock.
    pub fn draw(owner_pid: u32, boot_id: String) -> (r: GoalIdentity)
        ensures
            r.task_id@.len() == 36,
            forall|i: int| 0 <= i < 36 ==> uuid_char(#[trigger] r.task_id@[i]),
            is_timestamp(r.started_at@),
            r.owner == (GoalOwner { pid: owner_pid, boot_id }),
    {
        GoalIdentity {
            task_id: fresh_uuid(),
            started_at: now_rfc3339(),
            owner: GoalOwner { pid: owner_pid, boot_id },
        }
    }
}

/// A message about a goal and its budget.
pub open spec fn with_budget(key: &'static str, task_id: String, budget: Text) -> Text {
    message2(key, "task_id", Text::Plain(task_id), "budget", budget)
}

fn tell_budget(key: &'static str, task_id: &String, budget: Text) -> (r: Text)
    ensures
        r == with_budget(key, *task_id, budget),
{
    msg2(key, "task_id", Text::Plain(task_id.clone()), "budget", budget)
}

/// A result about a goal.
pub open spec fn admission(task_id: String, status: TaskStatus, message: Text, continue_goal: bool) -> GoalAdmission {
    GoalAdmission { task_id: Some(task_id), status, message, continuation_reason: None, continue_goal }
}

fn admitted(task_id: &String, status: TaskStatus, message: Text, continue_goal: bool) -> (r: GoalAdmission)
    ensures
        r == admission(*task_id, status, message, continue_goal),
{
    GoalAdmission { task_id: Some(task_id.clone()), status, message, continuation_reason: None, continue_goal }
}

/// The failure of a command about a goal that has ended.
pub open spec fn already_terminal(task: TaskRecord) -> GoalError {
    failure(
        message2(
            "goal-command-error-already-terminal",
            "task_id",
            Text::Plain(task.id),
            "status",
            label(status_key(task.status)),
        ),
    )
}

pub fn ensure_goal_not_terminal(task: &TaskRecord) -> (r: Result<(), GoalError>)
    ensures
        r == (if task.status.terminal() {
            Err::<(), GoalError>(already_terminal(*task))
        } else {
            Ok::<(), GoalError>(())
        }),
{
    if task.status.is_terminal() {
        let status = task_status_label(task.status);
        return Err(
            GoalError::new(
                msg2(
                    "goal-command-error-already-terminal",
                    "task_id",
                    Text::Plain(task.id.clone()),
                    "status",
                    status,
                ),
            ),
        );
    }
    Ok(())
}

// ---------------------------------------------------------------- pausing
pub open spec fn pause_key(reason: GoalPauseReason) -> &'static str {
    match reason {
        GoalPauseReason::BudgetExhausted => "goal-command-budget-exhausted",
        GoalPauseReason::BudgetUnavailable => "goal-command-budget-unavailable",
        _ => "goal-command-paused",
    }
}

pub fn goal_pause_message_key(reason: GoalPauseReason) -> (r: &'static str)
    ensures
        r == pause_key(reason),
{
    match reason {
        GoalPauseReason::BudgetExhausted => "goal-command-budget-exhausted",
        GoalPauseReason::BudgetUnavailable => "goal-command-budget-unavailable",
        _ => "goal-command-paused",
    }
}

/// Pausing a goal in the state it was read in.
pub open spec fn pause_steps(
    goal: TaskGoalView,
    pause: GoalPauseView,
    budget: Text,
    replies: Seq<GoalReply>,
    from: usize,
) -> StepView<GoalAdmission> {
    if goal.task.status.terminal() {
        StepView::Fail(already_terminal(goal.task))
    } else {
        match applied_reply(
            GoalRequest::PauseIfStatus { task_id: goal.task.id, expected: goal.task.status, pause },
            Some(about("goal-command-error-pause-failed", goal.task.id)),
            replies,
            from,
        ) {
            StepView::Ask(request) => StepView::Ask(request),
            StepView::Fail(error) => StepView::Fail(error),
            StepView::Ready(applied, next) => if !applied {
                StepView::Fail(failure(about("goal-command-error-pause-failed", goal.task.id)))
            } else {
                StepView::Ready(
                    admission(
                        goal.task.id,
                        TaskStatus::Paused,
                        with_budget(pause_key(pause.reason), goal.task.id, budget),
                        false,
                    ),
                    next,
                )
            },
        }
    }
}

pub fn pause_goal_for_resolved_task_with_budget(
    task_goal: &TaskGoal,
    pause: GoalPauseState,
    budget: Text,
    replies: &Vec<GoalReply>,
    from: usize,
) -> (r: Step<GoalAdmission>)
    ensures
        seen(r) == pause_steps(task_goal@, pause@, budget, replies@, from),
{
    match ensure_goal_not_terminal(&task_goal.task) {
        Err(error) => {
            return Step::Fail(error);
        },
        Ok(()) => {},
    }
    let task_id = task_goal.task.id.clone();
    let key = goal_pause_message_key(pause.reason);
    let request = GoalRequest::PauseIfStatus { task_id: task_id.clone(), expected: task_goal.task.status, pause };
    match await_applied(request, Some(tell_about("goal-command-error-pause-failed", &task_id)), replies, from) {
        Step::Ask(request) => Step::Ask(request),
        Step::Fail(error) => Step::Fail(error),
        Step::Ready(applied, next) => {
            if !applied {
                return Step::Fail(GoalError::new(tell_about("goal-command-error-pause-failed", &task_id)));
            }
            let message = tell_budget(key, &task_id, budget);
            Step::Ready(admitted(&task_id, TaskStatus::Paused, message, false), next)
        },
    }
}

/// Pausing a goal that is known already, with its budget as the ledger has it.
pub open spec fn pause_known_steps(
    goal: TaskGoalView,
    pause: GoalPauseView,
    replies: Seq<GoalReply>,
    from: usize,
) -> StepView<GoalAdmission> {
    match usage_reply(goal.task.id, LedgerAccess::Writable, replies, from) {
        StepView::Ask(request) => StepView::Ask(request),
        StepView::Fail(error) => StepView::Fail(error),
        StepView::Ready(usage, next) => pause_steps(goal, pause, budget_summary(goal.goal, usage), replies, next),
    }
}

pub fn pause_goal_for_known_blocker(
    task_goal: &TaskGoal,
    pause: GoalPauseState,
    replies: &Vec<GoalReply>,
    from: usize,
) -> (r: Step<GoalAdmission>)
    ensures
        seen(r) == pause_known_steps(task_goal@, pause@, replies@, from),
{
    match await_usage(&task_goal.task.id, LedgerAccess::Writable, replies, from) {
        Step::Ask(request) => Step::Ask(request),
        Step::Fail(error) => Step::Fail(error),
        Step::Ready(usage, next) => {
            let budget = goal_budget_summary(&task_goal.goal, usage);
            pause_goal_for_resolved_task_with_budget(task_goal, pause, budget, replies, next)
        },
    }
}

/// Pausing the goal that a command is about.
pub open spec fn pause_found_steps(
    ctx: GoalAdmissionContext,
    task_id: Option<String>,
    pause: GoalPauseView,
    replies: Seq<GoalReply>,
    from: usize,
) -> StepView<GoalAdmission> {
    match find_goal(ctx, task_id, replies, from) {
        StepView::Ask(request) => StepView::Ask(request),
        StepView::Fail(error) => StepView::Fail(error),
        StepView::Ready(goal, next) => pause_known_steps(goal, pause, replies, next),
    }
}

pub fn pause_goal_for_blocker(
    ctx: &GoalAdmissionContext,
    task_id: Option<String>,
    pause: GoalPauseState,
    replies: &Vec<GoalReply>,
    from: usize,
) -> (r: Step<GoalAdmission>)
    ensures
        seen(r) == pause_found_steps(*ctx, task_id, pause@, replies@, from),
{
    match resolve_goal(ctx, task_id, replies, from) {
        Step::Ask(request) => Step::Ask(request),
        Step::Fail(error) => Step::Fail(error),
        Step::Ready(goal, next) => pause_goal_for_known_blocker(&goal, pause, replies, next),
    }
}

// ---------------------------------------------------------------- starting
/// The extension row of a goal that starts, before any pause.
pub open spec fn plain_record(task_id: String, objective: String, token_limit: Option<u64>, cost_limit: Option<Usd>) -> GoalTaskView {
    GoalTaskView {
        task_id,
        objective,
        effective_token_limit: token_limit,
        effective_cost_limit_usd: cost_limit,
        pause_reason: None,
        pause_description: None,
        blockers: Seq::empty(),
        pending_call_id: None,
        pending_call_epoch: None,
        pending_tool_batch_id: None,
        pending_tool_epoch: None,
        accounting_state: GoalAccountingState::Complete,
    }
}

/// The pause with which a goal starts.
pub open spec fn initial_pause(goal: GoalTaskView, configured: bool, usage: Option<GoalUsageTotals>) -> Option<
    GoalPauseView,
> {
    if configured {
        accounting_pause(goal, usage)
    } else {
        None
    }
}

/// The extension row of a goal that starts.
pub open spec fn started_record(
    task_id: String,
    objective: String,
    token_limit: Option<u64>,
    cost_limit: Option<Usd>,
    configured: bool,
    usage: Option<GoalUsageTotals>,
) -> GoalTaskView {
    let goal = plain_record(task_id, objective, token_limit, cost_limit);
    match initial_pause(goal, configured, usage) {
        Some(pause) => GoalTaskView {
            pause_reason: Some(pause.reason),
            pause_description: pause.description,
            blockers: pause.blockers,
            ..goal
        },
        None => goal,
    }
}

/// The task row of a goal that starts.
pub open spec fn started_task(ctx: GoalAdmissionContext, identity: GoalIdentity, status: TaskStatus) -> TaskRecord {
    TaskRecord {
        id: identity.task_id,
        kind: TaskKind::Goal,
        agent: ctx.agent_alias,
        status,
        owner_pid: identity.owner.pid,
        owner_boot_id: identity.owner.boot_id,
        heartbeat_at: None,
        depth: 0,
        parent_id: None,
        originator_route: ctx.originator_route,
        delivered: false,
        idem_key: None,
        principal_id: ctx.principal_id,
        session_id: None,
        execution_epoch: 0,
        started_at: identity.started_at,
        finished_at: None,
    }
}

/// Some text in a chain of failures says that another active goal holds the
/// context. Failures of the tables are spelled out; a catalogue entry or an
/// amount has its words only where it is shown.
pub open spec fn context_conflict(error: GoalError) -> bool
    decreases error,
{
    (spelled_out(error.text) matches Some(s) && contains_text(s, "idx_tasks_active_goal_context"@)) || match error.cause {
        Some(cause) => context_conflict(*cause),
        None => false,
    }
}

pub fn is_active_goal_context_conflict(error: &GoalError) -> (r: bool)
    ensures
        r == context_conflict(*error),
    decreases error,
{
    let here = match error.text.spell() {
        Some(s) => contains(s.as_str(), "idx_tasks_active_goal_context"),
        None => false,
    };
    if here {
        return true;
    }
    match &error.cause {
        Some(cause) => is_active_goal_context_conflict(cause),
        None => false,
    }
}

/// The usage with which a goal starts.
pub open spec fn starting_usage(configured: bool, replies: Seq<GoalReply>, from: usize) -> StepView<
    Option<GoalUsageTotals>,
> {
    if !configured {
        StepView::Ready(initial_usage(false, None), from)
    } else {
        match ledger_reply(replies, from) {
            StepView::Ask(request) => StepView::Ask(request),
            StepView::Fail(error) => StepView::Fail(error),
            StepView::Ready(ledger, next) => StepView::Ready(initial_usage(true, ledger), next),
        }
    }
}

fn await_starting_usage(configured: bool, replies: &Vec<GoalReply>, from: usize) -> (r: Step<Option<GoalUsageTotals>>)
    ensures
        seen(r) == starting_usage(configured, replies@, from),
{
    if !configured {
        return Step::Ready(initial_goal_usage_totals(false, None), from);
    }
    match await_ledger(replies, from) {
        Step::Ask(request) => Step::Ask(request),
        Step::Fail(error) => Step::Fail(error),
        Step::Ready(ledger, next) => Step::Ready(initial_goal_usage_totals(true, ledger), next),
    }
}

/// A cost limit that can be enforced.
pub open spec fn enforceable(
    configured: bool,
    cost_limit: Option<Usd>,
    ledger_healthy: Option<bool>,
    replies: Seq<GoalReply>,
    from: usize,
) -> StepView<()> {
    if cost_limit is None || !configured {
        StepView::Ready((), from)
    } else {
        match tracking_reply(replies, from) {
            StepView::Ask(request) => StepView::Ask(request),
            StepView::Fail(error) => StepView::Fail(error),
            StepView::Ready(tracking, next) => if tracking_missing(tracking, cost_limit, ledger_healthy) {
                StepView::Fail(tracking_required())
            } else {
                StepView::Ready((), next)
            },
        }
    }
}

fn await_enforceable(
    configured: bool,
    cost_limit: Option<Usd>,
    ledger_healthy: Option<bool>,
    replies: &Vec<GoalReply>,
    from: usize,
) -> (r: Step<()>)
    ensures
        seen(r) == enforceable(configured, cost_limit, ledger_healthy, replies@, from),
{
    if cost_limit.is_none() || !configured {
        return Step::Ready((), from);
    }
    match await_tracking(replies, from) {
        Step::Ask(request) => Step::Ask(request),
        Step::Fail(error) => Step::Fail(error),
        Step::Ready(tracking, next) => match ensure_cost_budget_tracking_available(
            tracking,
            cost_limit,
            ledger_healthy,
        ) {
            Err(error) => Step::Fail(error),
            Ok(()) => Step::Ready((), next),
        },
    }
}

/// Starting a goal: its usage and tracking first, then that no goal is active
/// in its context, then the insertion, paused where accounting calls for it.
pub open spec fn start_steps(
    ctx: GoalAdmissionContext,
    objective: String,
    token_limit: Option<u64>,
    cost_limit: Option<Usd>,
    configured: bool,
    identity: GoalIdentity,
    replies: Seq<GoalReply>,
    from: usize,
) -> StepView<GoalAdmission> {
    match starting_usage(configured, replies, from) {
        StepView::Ask(request) => StepView::Ask(request),
        StepView::Fail(error) => StepView::Fail(error),
        StepView::Ready(usage, next) => match enforceable(configured, cost_limit, Some(usage is Some), replies, next) {
            StepView::Ask(request) => StepView::Ask(request),
            StepView::Fail(error) => StepView::Fail(error),
            StepView::Ready(_, next) => match task_reply(
                latest_active(ctx),
                Some(label("goal-command-error-active-goal-lookup-failed")),
                replies,
                next,
            ) {
                StepView::Ask(request) => StepView::Ask(request),
                StepView::Fail(error) => StepView::Fail(error),
                StepView::Ready(Some(active), _) => StepView::Fail(
                    failure(about("goal-command-error-active-goal-exists", active.id)),
                ),
                StepView::Ready(None, next) => {
                    let goal = started_record(
                        identity.task_id,
                        objective,
                        token_limit,
                        cost_limit,
                        configured,
                        usage,
                    );
                    let runs = initial_pause(
                        plain_record(identity.task_id, objective, token_limit, cost_limit),
                        configured,
                        usage,
                    ) is None;
                    let status = if runs {
                        TaskStatus::Running
                    } else {
                        TaskStatus::Paused
                    };
                    match done_reply(
                        GoalRequest::Create {
                            task: started_task(ctx, identity, status),
                            goal,
                            continuation: ctx.continuation_context,
                        },
                        None,
                        replies,
                        next,
                    ) {
                        StepView::Ask(request) => StepView::Ask(request),
                        StepView::Fail(error) => StepView::Fail(
                            if context_conflict(error) {
                                failure(label("goal-command-error-active-goal-conflict"))
                            } else {
                                in_context(label("goal-command-error-start-failed"), error)
                            },
                        ),
                        StepView::Ready(_, next) => StepView::Ready(
                            admission(
                                identity.task_id,
                                status,
                                message3(
                                    if runs {
                                        "goal-command-started"
                                    } else {
                                        "goal-command-started-budget-unavailable"
                                    },
                                    "task_id",
                                    Text::Plain(identity.task_id),
                                    "objective",
                                    Text::Plain(objective),
                                    "budget",
                                    budget_summary(goal, usage),
                                ),
                                runs,
                            ),
                            next,
                        ),
                    }
                },
            },
        },
    }
}

pub fn start_goal(
    ctx: &GoalAdmissionContext,
    objective: &String,
    token_limit: Option<u64>,
    cost_limit_usd: Option<Usd>,
    configured: bool,
    identity: &GoalIdentity,
    replies: &Vec<GoalReply>,
    from: usize,
) -> (r: Step<GoalAdmission>)
    ensures
        seen(r) == start_steps(
            *ctx,
            *objective,
            token_limit,
            cost_limit_usd,
            configured,
            *identity,
            replies@,
            from,
        ),
{
    let (usage, next) = match await_starting_usage(configured, replies, from) {
        Step::Ask(request) => {
            return Step::Ask(request);
        },
        Step::Fail(error) => {
            return Step::Fail(error);
        },
        Step::Ready(usage, next) => (usage, next),
    };
    let next = match await_enforceable(configured, cost_limit_usd, Some(usage.is_some()), replies, next) {
        Step::Ask(request) => {
            return Step::Ask(request);
        },
        Step::Fail(error) => {
            return Step::Fail(error);
        },
        Step::Ready((), next) => next,
    };
    let next = match await_task(
        ask_latest_active(ctx),
        Some(msg("goal-command-error-active-goal-lookup-failed")),
        replies,
        next,
    ) {
        Step::Ask(request) => {
            return Step::Ask(request);
        },
        Step::Fail(error) => {
            return Step::Fail(error);
        },
        Step::Ready(Some(active), _) => {
            return Step::Fail(GoalError::new(tell_about("goal-command-error-active-goal-exists", &active.id)));
        },
        Step::Ready(None, next) => next,
    };
    let mut goal = GoalTaskRecord {
        task_id: identity.task_id.clone(),
        objective: objective.clone(),
        effective_token_limit: token_limit,
        effective_cost_limit_usd: cost_limit_usd,
        pause_reason: None,
        pause_description: None,
        blockers: Vec::new(),
        pending_call_id: None,
        pending_call_epoch: None,
        pending_tool_batch_id: None,
        pending_tool_epoch: None,
        accounting_state: GoalAccountingState::Complete,
    };
    assert(goal@ =~= plain_record(identity.task_id, *objective, token_limit, cost_limit_usd));
    let pause = if configured { goal_accounting_gate_pause(&goal, usage) } else { None };
    let runs = pause.is_none();
    match pause {
        Some(pause) => {
            goal.pause_reason = Some(pause.reason);
            goal.pause_description = pause.description;
            goal.blockers = pause.blockers;
        },
        None => {},
    }
    let status = if runs { TaskStatus::Running } else { TaskStatus::Paused };
    let key = if runs { "goal-command-started" } else { "goal-command-started-budget-unavailable" };
    let budget = goal_budget_summary(&goal, usage);
    let message = msg3(
        key,
        "task_id",
        Text::Plain(identity.task_id.clone()),
        "objective",
        Text::Plain(objective.clone()),
        "budget",
        budget,
    );
    let task = TaskRecord {
        id: identity.task_id.clone(),
        kind: TaskKind::Goal,
        agent: ctx.agent_alias.clone(),
        status,
        owner_pid: identity.owner.pid,
        owner_boot_id: identity.owner.boot_id.clone(),
        heartbeat_at: None,
        depth: 0,
        parent_id: None,
        originator_route: crate::text::clone_opt(&ctx.originator_route),
        delivered: false,
        idem_key: None,
        principal_id: crate::text::clone_opt(&ctx.principal_id),
        session_id: None,
        execution_epoch: 0,
        started_at: identity.started_at.clone(),
        finished_at: None,
    };
    let request = GoalRequest::Create { task, goal, continuation: copy_continuation(&ctx.continuation_context) };
    match await_done(request, None, replies, next) {
        Step::Ask(request) => Step::Ask(request),
        Step::Fail(error) => {
            if is_active_goal_context_conflict(&error) {
                Step::Fail(GoalError::new(msg("goal-command-error-active-goal-conflict")))
            } else {
                Step::Fail(error.context(msg("goal-command-error-start-failed")))
            }
        },
        Step::Ready((), next) => Step::Ready(admitted(&identity.task_id, status, message, runs), next),
    }
}

// ---------------------------------------------------------------- showing
/// The state of a goal in words.
pub open spec fn status_message(goal: TaskGoalView, budget: Text) -> Text {
    let status = label(status_key(goal.task.status));
    match goal.goal.pause_reason {
        None => message4(
            "goal-command-status",
            "task_id",
            Text::Plain(goal.task.id),
            "status",
            status,
            "objective",
            Text::Plain(goal.goal.objective),
            "budget",
            budget,
        ),
        Some(reason) => {
            let tail = Args::Arg("budget", budget, Box::new(Args::End));
            let rest = match summary_of(goal.goal.blockers) {
                Some(blockers) => Args::Arg("blockers", blockers, Box::new(tail)),
                None => tail,
            };
            Text::Message(
                if goal.goal.blockers.len() == 0 {
                    "goal-command-status-paused"
                } else {
                    "goal-command-status-paused-blocked"
                },
                Box::new(
                    Args::Arg(
                        "task_id",
                        Text::Plain(goal.task.id),
                        Box::new(
                            Args::Arg(
                                "status",
                                status,
                                Box::new(
                                    Args::Arg(
                                        "objective",
                                        Text::Plain(goal.goal.objective),
                                        Box::new(
                                            Args::Arg("reason", label(pause_reason_key(reason)), Box::new(rest)),
                                        ),
                                    ),
                                ),
                            ),
                        ),
                    ),
                ),
            )
        },
    }
}

pub fn task_goal_status_message(task_goal: &TaskGoal, budget: Text) -> (r: Text)
    ensures
        r == status_message(task_goal@, budget),
{
    let status = task_status_label(task_goal.task.status);
    match task_goal.goal.pause_reason {
        None => msg4(
            "goal-command-status",
            "task_id",
            Text::Plain(task_goal.task.id.clone()),
            "status",
            status,
            "objective",
            Text::Plain(task_goal.goal.objective.clone()),
            "budget",
            budget,
        ),
        Some(reason) => {
            let tail = Args::Arg("budget", budget, Box::new(Args::End));
            let (key, rest) = match blockers_summary(&task_goal.goal.blockers) {
                Some(blockers) => (
                    "goal-command-status-paused-blocked",
                    Args::Arg("blockers", blockers, Box::new(tail)),
                ),
                None => ("goal-command-status-paused", tail),
            };
            let reason = pause_reason_label(reason);
            Text::Message(
                key,
                Box::new(
                    Args::Arg(
                        "task_id",
                        Text::Plain(task_goal.task.id.clone()),
                        Box::new(
                            Args::Arg(
                                "status",
                                status,
                                Box::new(
                                    Args::Arg(
                                        "objective",
                                        Text::Plain(task_goal.goal.objective.clone()),
                                        Box::new(Args::Arg("reason", reason, Box::new(rest))),
                                    ),
                                ),
                            ),
                        ),
                    ),
                ),
            )
        },
    }
}

/// Showing a goal, without opening a ledger that is not open.
pub open spec fn status_steps(
    ctx: GoalAdmissionContext,
    task_id: Option<String>,
    replies: Seq<GoalReply>,
    from: usize,
) -> StepView<GoalAdmission> {
    match find_goal(ctx, task_id, replies, from) {
        StepView::Ask(request) => StepView::Ask(request),
        StepView::Fail(error) => StepView::Fail(error),
        StepView::Ready(goal, next) => match usage_reply(goal.task.id, LedgerAccess::IfReady, replies, next) {
            StepView::Ask(request) => StepView::Ask(request),
            StepView::Fail(error) => StepView::Fail(error),
            StepView::Ready(usage, next) => StepView::Ready(
                admission(
                    goal.task.id,
                    goal.task.status,
                    status_message(goal, budget_summary(goal.goal, usage)),
                    false,
                ),
                next,
            ),
        },
    }
}

pub fn status_goal(ctx: &GoalAdmissionContext, task_id: Option<String>, replies: &Vec<GoalReply>, from: usize) -> (r:
    Step<GoalAdmission>)
    ensures
        seen(r) == status_steps(*ctx, task_id, replies@, from),
{
    match resolve_goal(ctx, task_id, replies, from) {
        Step::Ask(request) => Step::Ask(request),
        Step::Fail(error) => Step::Fail(error),
        Step::Ready(goal, next) => match await_usage(&goal.task.id, LedgerAccess::IfReady, replies, next) {
            Step::Ask(request) => Step::Ask(request),
            Step::Fail(error) => Step::Fail(error),
            Step::Ready(usage, next) => {
                let budget = goal_budget_summary(&goal.goal, usage);
                let message = task_goal_status_message(&goal, budget);
                Step::Ready(admitted(&goal.task.id, goal.task.status, message, false), next)
            },
        },
    }
}

// ---------------------------------------------------------------- budgets
/// The pause that accounting calls for on a command: the ledger is looked at
/// only under a configuration.
pub open spec fn command_pause(goal: GoalTaskView, configured: bool, usage: Option<GoalUsageTotals>) -> Option<
    GoalPauseView,
> {
    match if configured {
        ledger_pause(goal, usage)
    } else {
        None
    } {
        Some(pause) => Some(pause),
        None => gate_pause(goal, usage),
    }
}

fn command_gate_pause(goal: &GoalTaskRecord, configured: bool, usage: Option<GoalUsageTotals>) -> (r: Option<
    GoalPauseState,
>)
    ensures
        opt_pause(r) == command_pause(goal@, configured, usage),
{
    if configured {
        match goal_usage_ledger_gate_pause(goal, usage) {
            Some(pause) => {
                return Some(pause);
            },
            None => {},
        }
    }
    goal_budget_gate_pause(goal, usage)
}

/// What follows once the limits of a goal were changed: a pause that the new
/// limits call for; otherwise a budget pause is lifted, and the goal resumes
/// unless something else holds it up.
pub open spec fn relimited_steps(
    ctx: GoalAdmissionContext,
    goal: TaskGoalView,
    configured: bool,
    owner: GoalOwner,
    usage: Option<GoalUsageTotals>,
    replies: Seq<GoalReply>,
    from: usize,
) -> StepView<GoalAdmission> {
    let id = goal.task.id;
    let budget = budget_summary(goal.goal, usage);
    let failed = about("goal-command-error-budget-failed", id);
    match command_pause(goal.goal, configured, usage) {
        Some(pause) => match applied_reply(
            GoalRequest::PauseIfStatus {
                task_id: id,
                expected: goal.task.status,
                pause: merged_pause(goal.goal, pause),
            },
            Some(failed),
            replies,
            from,
        ) {
            StepView::Ask(request) => StepView::Ask(request),
            StepView::Fail(error) => StepView::Fail(error),
            StepView::Ready(applied, next) => if !applied {
                StepView::Fail(failure(failed))
            } else {
                StepView::Ready(
                    admission(
                        id,
                        TaskStatus::Paused,
                        with_budget("goal-command-budget-updated-paused", id, budget),
                        false,
                    ),
                    next,
                )
            },
        },
        None => if !(goal.task.status is Paused && budget_paused(goal.goal)) {
            StepView::Ready(
                admission(id, goal.task.status, with_budget("goal-command-budget-updated", id, budget), false),
                from,
            )
        } else {
            match unbudgeted_pause(goal.goal) {
                Some(pause) => match applied_reply(
                    GoalRequest::PauseIfStatus { task_id: id, expected: goal.task.status, pause },
                    Some(failed),
                    replies,
                    from,
                ) {
                    StepView::Ask(request) => StepView::Ask(request),
                    StepView::Fail(error) => StepView::Fail(error),
                    StepView::Ready(applied, next) => if !applied {
                        StepView::Fail(failure(failed))
                    } else {
                        StepView::Ready(
                            admission(
                                id,
                                TaskStatus::Paused,
                                match summary_of(pause.blockers) {
                                    Some(blockers) => message3(
                                        "goal-command-budget-updated-paused-blocked",
                                        "task_id",
                                        Text::Plain(id),
                                        "blockers",
                                        blockers,
                                        "budget",
                                        budget,
                                    ),
                                    None => with_budget("goal-command-budget-updated-paused", id, budget),
                                },
                                false,
                            ),
                            next,
                        )
                    },
                },
                None => match applied_reply(
                    GoalRequest::ResumePaused {
                        task_id: id,
                        owner_pid: owner.pid,
                        boot_id: owner.boot_id,
                        continuation: ctx.continuation_context,
                    },
                    Some(about("goal-command-error-update-failed", id)),
                    replies,
                    from,
                ) {
                    StepView::Ask(request) => StepView::Ask(request),
                    StepView::Fail(error) => StepView::Fail(error),
                    StepView::Ready(applied, next) => if !applied {
                        StepView::Fail(failure(about("goal-command-error-update-failed", id)))
                    } else {
                        StepView::Ready(
                            admission(
                                id,
                                TaskStatus::Running,
                                with_budget("goal-command-budget-updated-resumed", id, budget),
                                true,
                            ),
                            next,
                        )
                    },
                },
            }
        },
    }
}

fn after_relimit(
    ctx: &GoalAdmissionContext,
    goal: &TaskGoal,
    configured: bool,
    owner: &GoalOwner,
    usage: Option<GoalUsageTotals>,
    replies: &Vec<GoalReply>,
    from: usize,
) -> (r: Step<GoalAdmission>)
    ensures
        seen(r) == relimited_steps(*ctx, goal@, configured, *owner, usage, replies@, from),
{
    let id = &goal.task.id;
    let budget = goal_budget_summary(&goal.goal, usage);
    match command_gate_pause(&goal.goal, configured, usage) {
        Some(pause) => {
            let request = GoalRequest::PauseIfStatus {
                task_id: id.clone(),
                expected: goal.task.status,
                pause: merge_budget_pause(&goal.goal, pause),
            };
            match await_applied(request, Some(tell_about("goal-command-error-budget-failed", id)), replies, from) {
                Step::Ask(request) => Step::Ask(request),
                Step::Fail(error) => Step::Fail(error),
                Step::Ready(applied, next) => {
                    if !applied {
                        return Step::Fail(GoalError::new(tell_about("goal-command-error-budget-failed", id)));
                    }
                    let message = tell_budget("goal-command-budget-updated-paused", id, budget);
                    Step::Ready(admitted(id, TaskStatus::Paused, message, false), next)
                },
            }
        },
        None => {
            if !(goal.task.status == TaskStatus::Paused && has_budget_pause(&goal.goal)) {
                let message = tell_budget("goal-command-budget-updated", id, budget);
                return Step::Ready(admitted(id, goal.task.status, message, false), from);
            }
            match remove_budget_pause(&goal.goal) {
                Some(pause) => {
                    let blockers = blockers_summary(&pause.blockers);
                    let request = GoalRequest::PauseIfStatus {
                        task_id: id.clone(),
                        expected: goal.task.status,
                        pause,
                    };
                    match await_applied(
                        request,
                        Some(tell_about("goal-command-error-budget-failed", id)),
                        replies,
                        from,
                    ) {
                        Step::Ask(request) => Step::Ask(request),
                        Step::Fail(error) => Step::Fail(error),
                        Step::Ready(applied, next) => {
                            if !applied {
                                return Step::Fail(
                                    GoalError::new(tell_about("goal-command-error-budget-failed", id)),
                                );
                            }
                            let message = match blockers {
                                Some(blockers) => msg3(
                                    "goal-command-budget-updated-paused-blocked",
                                    "task_id",
                                    Text::Plain(id.clone()),
                                    "blockers",
                                    blockers,
                                    "budget",
                                    budget,
                                ),
                                None => tell_budget("goal-command-budget-updated-paused", id, budget),
                            };
                            Step::Ready(admitted(id, TaskStatus::Paused, message, false), next)
                        },
                    }
                },
                None => {
                    let request = GoalRequest::ResumePaused {
                        task_id: id.clone(),
                        owner_pid: owner.pid,
                        boot_id: owner.boot_id.clone(),
                        continuation: copy_continuation(&ctx.continuation_context),
                    };
                    match await_applied(
                        request,
                        Some(tell_about("goal-command-error-update-failed", id)),
                        replies,
                        from,
                    ) {
                        Step::Ask(request) => Step::Ask(request),
                        Step::Fail(error) => Step::Fail(error),
                        Step::Ready(applied, next) => {
                            if !applied {
                                return Step::Fail(
                                    GoalError::new(tell_about("goal-command-error-update-failed", id)),
                                );
                            }
                            let message = tell_budget("goal-command-budget-updated-resumed", id, budget);
                            Step::Ready(admitted(id, TaskStatus::Running, message, true), next)
                        },
                    }
                },
            }
        },
    }
}

/// Changing the limits of the goal in sight.
pub open spec fn budget_steps(
    ctx: GoalAdmissionContext,
    budgets: GoalBudgetOverrides,
    configured: bool,
    owner: GoalOwner,
    replies: Seq<GoalReply>,
    from: usize,
) -> StepView<GoalAdmission> {
    if budgets.token_limit is Default && budgets.cost_limit_usd is Default {
        StepView::Fail(failure(label("goal-command-error-missing-budget")))
    } else {
        match find_goal(ctx, None, replies, from) {
            StepView::Ask(request) => StepView::Ask(request),
            StepView::Fail(error) => StepView::Fail(error),
            StepView::Ready(current, next) => if current.task.status.terminal() {
                StepView::Fail(already_terminal(current.task))
            } else {
                let token_limit = chosen(budgets.token_limit, current.goal.effective_token_limit);
                let cost_limit = chosen(budgets.cost_limit_usd, current.goal.effective_cost_limit_usd);
                match enforceable(configured, cost_limit, None, replies, next) {
                    StepView::Ask(request) => StepView::Ask(request),
                    StepView::Fail(error) => StepView::Fail(error),
                    StepView::Ready(_, next) => match done_reply(
                        GoalRequest::UpdateLimits {
                            task_id: current.task.id,
                            token_limit,
                            cost_limit_usd: cost_limit,
                        },
                        Some(about("goal-command-error-budget-failed", current.task.id)),
                        replies,
                        next,
                    ) {
                        StepView::Ask(request) => StepView::Ask(request),
                        StepView::Fail(error) => StepView::Fail(error),
                        StepView::Ready(_, next) => match usage_reply(
                            current.task.id,
                            LedgerAccess::Writable,
                            replies,
                            next,
                        ) {
                            StepView::Ask(request) => StepView::Ask(request),
                            StepView::Fail(error) => StepView::Fail(error),
                            StepView::Ready(usage, next) => relimited_steps(
                                ctx,
                                with_limits(current, token_limit, cost_limit),
                                configured,
                                owner,
                                usage,
                                replies,
                                next,
                            ),
                        },
                    },
                }
            },
        }
    }
}

pub fn update_goal_budget(
    ctx: &GoalAdmissionContext,
    budgets: GoalBudgetOverrides,
    configured: bool,
    owner: &GoalOwner,
    replies: &Vec<GoalReply>,
    from: usize,
) -> (r: Step<GoalAdmission>)
    ensures
        seen(r) == budget_steps(*ctx, budgets, configured, *owner, replies@, from),
{
    let tokens_kept = match budgets.token_limit {
        GoalBudgetValue::Default => true,
        _ => false,
    };
    let cost_kept = match budgets.cost_limit_usd {
        GoalBudgetValue::Default => true,
        _ => false,
    };
    if tokens_kept && cost_kept {
        return Step::Fail(GoalError::new(msg("goal-command-error-missing-budget")));
    }
    let (current, next) = match resolve_goal(ctx, None, replies, from) {
        Step::Ask(request) => {
            return Step::Ask(request);
        },
        Step::Fail(error) => {
            return Step::Fail(error);
        },
        Step::Ready(goal, next) => (goal, next),
    };
    match ensure_goal_not_terminal(&current.task) {
        Err(error) => {
            return Step::Fail(error);
        },
        Ok(()) => {},
    }
    let token_limit = choose_tokens(budgets.token_limit, current.goal.effective_token_limit);
    let cost_limit_usd = choose_cost(budgets.cost_limit_usd, current.goal.effective_cost_limit_usd);
    let next = match await_enforceable(configured, cost_limit_usd, None, replies, next) {
        Step::Ask(request) => {
            return Step::Ask(request);
        },
        Step::Fail(error) => {
            return Step::Fail(error);
        },
        Step::Ready((), next) => next,
    };
    let request = GoalRequest::UpdateLimits { task_id: current.task.id.clone(), token_limit, cost_limit_usd };
    let next = match await_done(
        request,
        Some(tell_about("goal-command-error-budget-failed", &current.task.id)),
        replies,
        next,
    ) {
        Step::Ask(request) => {
            return Step::Ask(request);
        },
        Step::Fail(error) => {
            return Step::Fail(error);
        },
        Step::Ready((), next) => next,
    };
    let updated = current.with_effective_limits(token_limit, cost_limit_usd);
    match await_usage(&updated.task.id, LedgerAccess::Writable, replies, next) {
        Step::Ask(request) => Step::Ask(request),
        Step::Fail(error) => Step::Fail(error),
        Step::Ready(usage, next) => after_relimit(ctx, &updated, configured, owner, usage, replies, next),
    }
}

/// Changing the objective of the goal in sight.
pub open spec fn objective_steps(
    ctx: GoalAdmissionContext,
    objective: String,
    replies: Seq<GoalReply>,
    from: usize,
) -> StepView<GoalAdmission> {
    match find_goal(ctx, None, replies, from) {
        StepView::Ask(request) => StepView::Ask(request),
        StepView::Fail(error) => StepView::Fail(error),
        StepView::Ready(current, next) => if current.task.status.terminal() {
            StepView::Fail(already_terminal(current.task))
        } else {
            match done_reply(
                GoalRequest::UpdateObjective { task_id: current.task.id, objective },
                Some(about("goal-command-error-update-failed", current.task.id)),
                replies,
                next,
            ) {
                StepView::Ask(request) => StepView::Ask(request),
                StepView::Fail(error) => StepView::Fail(error),
                StepView::Ready(_, next) => match usage_reply(current.task.id, LedgerAccess::Writable, replies, next) {
                    StepView::Ask(request) => StepView::Ask(request),
                    StepView::Fail(error) => StepView::Fail(error),
                    StepView::Ready(usage, next) => StepView::Ready(
                        admission(
                            current.task.id,
                            current.task.status,
                            message3(
                                "goal-command-objective-updated",
                                "task_id",
                                Text::Plain(current.task.id),
                                "objective",
                                Text::Plain(objective),
                                "budget",
                                budget_summary(current.goal, usage),
                            ),
                            false,
                        ),
                        next,
                    ),
                },
            }
        },
    }
}

pub fn update_goal_objective(ctx: &GoalAdmissionContext, objective: &String, replies: &Vec<GoalReply>, from: usize) -> (r:
    Step<GoalAdmission>)
    ensures
        seen(r) == objective_steps(*ctx, *objective, replies@, from),
{
    let (current, next) = match resolve_goal(ctx, None, replies, from) {
        Step::Ask(request) => {
            return Step::Ask(request);
        },
        Step::Fail(error) => {
            return Step::Fail(error);
        },
        Step::Ready(goal, next) => (goal, next),
    };
    match ensure_goal_not_terminal(&current.task) {
        Err(error) => {
            return Step::Fail(error);
        },
        Ok(()) => {},
    }
    let id = &current.task.id;
    let request = GoalRequest::UpdateObjective { task_id: id.clone(), objective: objective.clone() };
    let next = match await_done(request, Some(tell_about("goal-command-error-update-failed", id)), replies, next) {
        Step::Ask(request) => {
            return Step::Ask(request);
        },
        Step::Fail(error) => {
            return Step::Fail(error);
        },
        Step::Ready((), next) => next,
    };
    match await_usage(id, LedgerAccess::Writable, replies, next) {
        Step::Ask(request) => Step::Ask(request),
        Step::Fail(error) => Step::Fail(error),
        Step::Ready(usage, next) => {
            let message = msg3(
                "goal-command-objective-updated",
                "task_id",
                Text::Plain(id.clone()),
                "objective",
                Text::Plain(objective.clone()),
                "budget",
                goal_budget_summary(&current.goal, usage),
            );
            Step::Ready(admitted(id, current.task.status, message, false), next)
        },
    }
}

// ---------------------------------------------------------------- resuming
/// Resuming a goal: its budget is looked at first, and a goal that has none
/// left stays paused.
pub open spec fn resume_steps(
    ctx: GoalAdmissionContext,
    resume_reason: Option<String>,
    configured: bool,
    owner: GoalOwner,
    current: TaskGoalView,
    replies: Seq<GoalReply>,
    from: usize,
) -> StepView<GoalAdmission> {
    let id = current.task.id;
    if current.task.status.terminal() {
        StepView::Fail(already_terminal(current.task))
    } else {
        match usage_reply(id, LedgerAccess::Writable, replies, from) {
            StepView::Ask(request) => StepView::Ask(request),
            StepView::Fail(error) => StepView::Fail(error),
            StepView::Ready(usage, next) => match command_pause(current.goal, configured, usage) {
                Some(pause) => match applied_reply(
                    GoalRequest::PauseIfStatus {
                        task_id: id,
                        expected: current.task.status,
                        pause: merged_pause(current.goal, pause),
                    },
                    Some(about("goal-command-error-resume-failed", id)),
                    replies,
                    next,
                ) {
                    StepView::Ask(request) => StepView::Ask(request),
                    StepView::Fail(error) => StepView::Fail(error),
                    StepView::Ready(applied, next) => if !applied {
                        StepView::Fail(failure(about("goal-command-error-resume-failed", id)))
                    } else {
                        StepView::Ready(
                            admission(
                                id,
                                TaskStatus::Paused,
                                with_budget(pause_key(pause.reason), id, budget_summary(current.goal, usage)),
                                false,
                            ),
                            next,
                        )
                    },
                },
                None => match applied_reply(
                    GoalRequest::ResumePaused {
                        task_id: id,
                        owner_pid: owner.pid,
                        boot_id: owner.boot_id,
                        continuation: ctx.continuation_context,
                    },
                    Some(about("goal-command-error-update-failed", id)),
                    replies,
                    next,
                ) {
                    StepView::Ask(request) => StepView::Ask(request),
                    StepView::Fail(error) => StepView::Fail(error),
                    StepView::Ready(applied, next) => if !applied {
                        StepView::Fail(failure(about("goal-command-error-update-failed", id)))
                    } else {
                        StepView::Ready(
                            GoalAdmission {
                                continuation_reason: resume_reason,
                                ..admission(
                                    id,
                                    TaskStatus::Running,
                                    with_budget("goal-command-resumed", id, budget_summary(current.goal, usage)),
                                    true,
                                )
                            },
                            next,
                        )
                    },
                },
            },
        }
    }
}

pub fn resume_resolved_goal(
    ctx: &GoalAdmissionContext,
    resume_reason: &Option<String>,
    configured: bool,
    owner: &GoalOwner,
    current: &TaskGoal,
    replies: &Vec<GoalReply>,
    from: usize,
) -> (r: Step<GoalAdmission>)
    ensures
        seen(r) == resume_steps(*ctx, *resume_reason, configured, *owner, current@, replies@, from),
{
    match ensure_goal_not_terminal(&current.task) {
        Err(error) => {
            return Step::Fail(error);
        },
        Ok(()) => {},
    }
    let id = &current.task.id;
    let (usage, next) = match await_usage(id, LedgerAccess::Writable, replies, from) {
        Step::Ask(request) => {
            return Step::Ask(request);
        },
        Step::Fail(error) => {
            return Step::Fail(error);
        },
        Step::Ready(usage, next) => (usage, next),
    };
    let budget = goal_budget_summary(&current.goal, usage);
    match command_gate_pause(&current.goal, configured, usage) {
        Some(pause) => {
            let key = goal_pause_message_key(pause.reason);
            let request = GoalRequest::PauseIfStatus {
                task_id: id.clone(),
                expected: current.task.status,
                pause: merge_budget_pause(&current.goal, pause),
            };
            match await_applied(request, Some(tell_about("goal-command-error-resume-failed", id)), replies, next) {
                Step::Ask(request) => Step::Ask(request),
                Step::Fail(error) => Step::Fail(error),
                Step::Ready(applied, next) => {
                    if !applied {
                        return Step::Fail(GoalError::new(tell_about("goal-command-error-resume-failed", id)));
                    }
                    let message = tell_budget(key, id, budget);
                    Step::Ready(admitted(id, TaskStatus::Paused, message, false), next)
                },
            }
        },
        None => {
            let request = GoalRequest::ResumePaused {
                task_id: id.clone(),
                owner_pid: owner.pid,
                boot_id: owner.boot_id.clone(),
                continuation: copy_continuation(&ctx.continuation_context),
            };
            match await_applied(request, Some(tell_about("goal-command-error-update-failed", id)), replies, next) {
                Step::Ask(request) => Step::Ask(request),
                Step::Fail(error) => Step::Fail(error),
                Step::Ready(applied, next) => {
                    if !applied {
                        return Step::Fail(GoalError::new(tell_about("goal-command-error-update-failed", id)));
                    }
                    let message = tell_budget("goal-command-resumed", id, budget);
                    let mut resumed = admitted(id, TaskStatus::Running, message, true);
                    resumed.continuation_reason = crate::text::clone_opt(resume_reason);
                    Step::Ready(resumed, next)
                },
            }
        },
    }
}

/// Resuming the goal in sight.
pub open spec fn resume_found_steps(
    ctx: GoalAdmissionContext,
    resume_reason: Option<String>,
    configured: bool,
    owner: GoalOwner,
    replies: Seq<GoalReply>,
    from: usize,
) -> StepView<GoalAdmission> {
    match find_goal(ctx, None, replies, from) {
        StepView::Ask(request) => StepView::Ask(request),
        StepView::Fail(error) => StepView::Fail(error),
        StepView::Ready(current, next) => resume_steps(ctx, resume_reason, configured, owner, current, replies, next),
    }
}

pub fn resume_goal(
    ctx: &GoalAdmissionContext,
    resume_reason: &Option<String>,
    configured: bool,
    owner: &GoalOwner,
    replies: &Vec<GoalReply>,
    from: usize,
) -> (r: Step<GoalAdmission>)
    ensures
        seen(r) == resume_found_steps(*ctx, *resume_reason, configured, *owner, replies@, from),
{
    match resolve_goal(ctx, None, replies, from) {
        Step::Ask(request) => Step::Ask(request),
        Step::Fail(error) => Step::Fail(error),
        Step::Ready(current, next) => resume_resolved_goal(ctx, resume_reason, configured, owner, &current, replies, next),
    }
}

// ---------------------------------------------------------------- cancelling
/// Cancelling a goal in the state it was read in.
pub open spec fn cancel_steps(current: TaskGoalView, replies: Seq<GoalReply>, from: usize) -> StepView<GoalAdmission> {
    let id = current.task.id;
    if current.task.status.terminal() {
        StepView::Fail(already_terminal(current.task))
    } else {
        match applied_reply(
            GoalRequest::CancelIfStatus {
                task_id: id,
                expected: current.task.status,
                reason: label("goal-terminal-reason-cancelled-by-controller"),
            },
            Some(about("goal-command-error-update-failed", id)),
            replies,
            from,
        ) {
            StepView::Ask(request) => StepView::Ask(request),
            StepView::Fail(error) => StepView::Fail(error),
            StepView::Ready(applied, next) => if !applied {
                StepView::Fail(failure(about("goal-command-error-update-failed", id)))
            } else {
                match usage_reply(id, LedgerAccess::Writable, replies, next) {
                    StepView::Ask(request) => StepView::Ask(request),
                    StepView::Fail(error) => StepView::Fail(error),
                    StepView::Ready(usage, next) => StepView::Ready(
                        admission(
                            id,
                            TaskStatus::Cancelled,
                            with_budget("goal-command-cancelled", id, budget_summary(current.goal, usage)),
                            false,
                        ),
                        next,
                    ),
                }
            },
        }
    }
}

pub fn cancel_resolved_goal(current: &TaskGoal, replies: &Vec<GoalReply>, from: usize) -> (r: Step<GoalAdmission>)
    ensures
        seen(r) == cancel_steps(current@, replies@, from),
{
    match ensure_goal_not_terminal(&current.task) {
        Err(error) => {
            return Step::Fail(error);
        },
        Ok(()) => {},
    }
    let id = &current.task.id;
    let request = GoalRequest::CancelIfStatus {
        task_id: id.clone(),
        expected: current.task.status,
        reason: msg("goal-terminal-reason-cancelled-by-controller"),
    };
    let next = match await_applied(request, Some(tell_about("goal-command-error-update-failed", id)), replies, from) {
        Step::Ask(request) => {
            return Step::Ask(request);
        },
        Step::Fail(error) => {
            return Step::Fail(error);
        },
        Step::Ready(applied, next) => {
            if !applied {
                return Step::Fail(GoalError::new(tell_about("goal-command-error-update-failed", id)));
            }
            next
        },
    };
    match await_usage(id, LedgerAccess::Writable, replies, next) {
        Step::Ask(request) => Step::Ask(request),
        Step::Fail(error) => Step::Fail(error),
        Step::Ready(usage, next) => {
            let message = tell_budget("goal-command-cancelled", id, goal_budget_summary(&current.goal, usage));
            Step::Ready(admitted(id, TaskStatus::Cancelled, message, false), next)
        },
    }
}

/// Cancelling the goal that a command is about.
pub open spec fn cancel_found_steps(
    ctx: GoalAdmissionContext,
    task_id: Option<String>,
    replies: Seq<GoalReply>,
    from: usize,
) -> StepView<GoalAdmission> {
    match find_goal(ctx, task_id, replies, from) {
        StepView::Ask(request) => StepView::Ask(request),
        StepView::Fail(error) => StepView::Fail(error),
        StepView::Ready(current, next) => cancel_steps(current, replies, next),
    }
}

pub fn cancel_goal(ctx: &GoalAdmissionContext, task_id: Option<String>, replies: &Vec<GoalReply>, from: usize) -> (r:
    Step<GoalAdmission>)
    ensures
        seen(r) == cancel_found_steps(*ctx, task_id, replies@, from),
{
    match resolve_goal(ctx, task_id, replies, from) {
        Step::Ask(request) => Step::Ask(request),
        Step::Fail(error) => Step::Fail(error),
        Step::Ready(current, next) => cancel_resolved_goal(&current, replies, next),
    }
}

} // verus!
