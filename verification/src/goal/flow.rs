//! Conversations with the stores, the ledger and the verifier.
//!
//! A command is worked off in steps. Each step is given every reply so far and
//! either asks for the next one, fails, or has its result. Nothing is
//! remembered between steps, and whatever happens between two replies shows
//! only in the replies.
use vstd::prelude::*;
#[allow(unused_imports)]
use vstd::string::*;

use super::budget::{CostTracking, GoalUsageTotals, TrackerState};
use super::context::{GoalAdmissionContext, GoalStateUpdateEvent};
use crate::error::{failure, in_context, GoalError};
use crate::goal_task::{
    GoalPauseState, GoalPauseView, GoalTaskRecord, GoalTaskView, TaskContinuationContext, TaskGoal, TaskGoalView,
};
use crate::message::Text;
use crate::store::goal_view;
use crate::task::{TaskRecord, TaskStatus};
use crate::usd::Usd;

verus! {

/// How a usage ledger is opened.
#[derive(Clone, Copy, Debug, PartialEq, Eq, Structural)]
pub enum LedgerAccess {
    /// It has to take further entries.
    Writable,
    /// As it is, if it is open already.
    IfReady,
}

/// What a step asks for. `P` stands for a pause, `G` for an extension row.
#[derive(Debug, PartialEq, Eq)]
#[allow(inconsistent_fields)]
pub enum GoalRequest<P, G> {
    /// A task row.
    ReadTask(String),
    /// The latest active goal of an agent in a context.
    LatestActive { agent: String, route: Option<String>, principal: Option<String> },
    /// The extension row of a goal.
    ReadGoal(String),
    /// Where a goal continues.
    ReadContinuation(String),
    /// Move a goal from one identity to another.
    Rebind { task_id: String, from_route: String, from_principal: String, to_route: String, to_principal: String },
    /// What the ledger attributes to a goal.
    ReadUsage { task_id: String, access: LedgerAccess },
    /// Whether costs are tracked.
    ReadTracking,
    /// The state of the ledger for a new goal.
    ReadLedger,
    /// Pause a goal that has a status.
    PauseIfStatus { task_id: String, expected: TaskStatus, pause: P },
    /// Resume a paused goal under an owner: a process and its boot.
    ResumePaused { task_id: String, owner_pid: u32, boot_id: String, continuation: Option<TaskContinuationContext> },
    /// Cancel a goal that has a status.
    CancelIfStatus { task_id: String, expected: TaskStatus, reason: Text },
    /// Complete a running goal that has these limits.
    CompleteIfLimits { task_id: String, token_limit: Option<u64>, cost_limit_usd: Option<Usd>, summary: String },
    /// Change the limits of a goal.
    UpdateLimits { task_id: String, token_limit: Option<u64>, cost_limit_usd: Option<Usd> },
    /// Change the objective of a goal.
    UpdateObjective { task_id: String, objective: String },
    /// Insert a goal.
    Create { task: TaskRecord, goal: G, continuation: Option<TaskContinuationContext> },
    /// Judge whether a goal is reached.
    Verify { agent: String, context: GoalAdmissionContext, goal: G, summary: String },
    /// Bind the live turn to a goal.
    Bind(String),
    /// Show an update to the people who follow the goal.
    Publish(GoalStateUpdateEvent),
}

/// A request as it is made.
pub type Asked = GoalRequest<GoalPauseState, GoalTaskRecord>;

/// What a request says.
pub type AskedView = GoalRequest<GoalPauseView, GoalTaskView>;

/// What the verifier had to say.
#[derive(Debug, PartialEq, Eq)]
pub enum VerifierOutcome {
    Complete,
    Continue { notes: String },
    /// The goal is held up; also the outcome of a verifier that failed.
    Blocked { pause: GoalPauseState },
    /// What the verification used could not be accounted for, for want of
    /// prices or otherwise.
    AccountingFailed { pricing: bool },
}

/// A reply.
#[derive(Debug, PartialEq, Eq)]
pub enum GoalReply {
    Task(Option<TaskRecord>),
    Goal(Option<GoalTaskRecord>),
    Continuation(Option<TaskContinuationContext>),
    /// Whether a guarded change was made.
    Applied(bool),
    Done,
    Usage(Option<GoalUsageTotals>),
    Tracking(Option<CostTracking>),
    Ledger(Option<TrackerState>),
    Verdict(VerifierOutcome),
    Failed(GoalError),
}

/// How far a step has come.
#[derive(Debug, PartialEq, Eq)]
pub enum Step<T> {
    Ask(Asked),
    Fail(GoalError),
    /// The result, from the replies up to this one.
    Ready(T, usize),
}

/// What a `Step` says.
pub enum StepView<T> {
    Ask(AskedView),
    Fail(GoalError),
    Ready(T, usize),
}

pub open spec fn asked_view(request: Asked) -> AskedView {
    match request {
        GoalRequest::ReadTask(id) => GoalRequest::ReadTask(id),
        GoalRequest::LatestActive { agent, route, principal } => GoalRequest::LatestActive { agent, route, principal },
        GoalRequest::ReadGoal(id) => GoalRequest::ReadGoal(id),
        GoalRequest::ReadContinuation(id) => GoalRequest::ReadContinuation(id),
        GoalRequest::Rebind { task_id, from_route, from_principal, to_route, to_principal } => GoalRequest::Rebind {
            task_id,
            from_route,
            from_principal,
            to_route,
            to_principal,
        },
        GoalRequest::ReadUsage { task_id, access } => GoalRequest::ReadUsage { task_id, access },
        GoalRequest::ReadTracking => GoalRequest::ReadTracking,
        GoalRequest::ReadLedger => GoalRequest::ReadLedger,
        GoalRequest::PauseIfStatus { task_id, expected, pause } => GoalRequest::PauseIfStatus {
            task_id,
            expected,
            pause: pause@,
        },
        GoalRequest::ResumePaused { task_id, owner_pid, boot_id, continuation } => GoalRequest::ResumePaused {
            task_id,
            owner_pid,
            boot_id,
            continuation,
        },
        GoalRequest::CancelIfStatus { task_id, expected, reason } => GoalRequest::CancelIfStatus {
            task_id,
            expected,
            reason,
        },
        GoalRequest::CompleteIfLimits { task_id, token_limit, cost_limit_usd, summary } => GoalRequest::CompleteIfLimits {
            task_id,
            token_limit,
            cost_limit_usd,
            summary,
        },
        GoalRequest::UpdateLimits { task_id, token_limit, cost_limit_usd } => GoalRequest::UpdateLimits {
            task_id,
            token_limit,
            cost_limit_usd,
        },
        GoalRequest::UpdateObjective { task_id, objective } => GoalRequest::UpdateObjective { task_id, objective },
        GoalRequest::Create { task, goal, continuation } => GoalRequest::Create { task, goal: goal@, continuation },
        GoalRequest::Verify { agent, context, goal, summary } => GoalRequest::Verify {
            agent,
            context,
            goal: goal@,
            summary,
        },
        GoalRequest::Bind(id) => GoalRequest::Bind(id),
        GoalRequest::Publish(event) => GoalRequest::Publish(event),
    }
}

/// What a step says whose result says itself.
pub open spec fn seen<T>(step: Step<T>) -> StepView<T> {
    match step {
        Step::Ask(request) => StepView::Ask(asked_view(request)),
        Step::Fail(error) => StepView::Fail(error),
        Step::Ready(value, next) => StepView::Ready(value, next),
    }
}

pub open spec fn seen_goal(step: Step<TaskGoal>) -> StepView<TaskGoalView> {
    match step {
        Step::Ask(request) => StepView::Ask(asked_view(request)),
        Step::Fail(error) => StepView::Fail(error),
        Step::Ready(value, next) => StepView::Ready(value@, next),
    }
}

pub open spec fn seen_goal_option(step: Step<Option<TaskGoal>>) -> StepView<Option<TaskGoalView>> {
    match step {
        Step::Ask(request) => StepView::Ask(asked_view(request)),
        Step::Fail(error) => StepView::Fail(error),
        Step::Ready(Some(value), next) => StepView::Ready(Some(value@), next),
        Step::Ready(None, next) => StepView::Ready(None, next),
    }
}

pub open spec fn seen_extension(step: Step<Option<GoalTaskRecord>>) -> StepView<Option<GoalTaskView>> {
    match step {
        Step::Ask(request) => StepView::Ask(asked_view(request)),
        Step::Fail(error) => StepView::Fail(error),
        Step::Ready(value, next) => StepView::Ready(goal_view(value), next),
    }
}

pub open spec fn unexpected_reply() -> GoalError {
    failure(Text::Fixed("the stores sent an unexpected reply"))
}

fn unexpected() -> (r: GoalError)
    ensures
        r == unexpected_reply(),
{
    GoalError::new(Text::Fixed("the stores sent an unexpected reply"))
}

pub open spec fn past(from: usize) -> usize {
    (from + 1) as usize
}

/// A failure, in context if there is one.
pub open spec fn contextual(context: Option<Text>, error: GoalError) -> GoalError {
    match context {
        Some(text) => in_context(text, error),
        None => error,
    }
}

fn put_in_context(context: Option<Text>, error: GoalError) -> (r: GoalError)
    ensures
        r == contextual(context, error),
{
    match context {
        Some(text) => error.context(text),
        None => error,
    }
}

// ---------------------------------------------------------------- replies
pub open spec fn task_reply(
    request: AskedView,
    context: Option<Text>,
    replies: Seq<GoalReply>,
    from: usize,
) -> StepView<Option<TaskRecord>> {
    if from >= replies.len() {
        StepView::Ask(request)
    } else {
        match replies[from as int] {
            GoalReply::Task(task) => StepView::Ready(task, past(from)),
            GoalReply::Failed(error) => StepView::Fail(contextual(context, error)),
            _ => StepView::Fail(contextual(context, unexpected_reply())),
        }
    }
}

pub fn await_task(request: Asked, context: Option<Text>, replies: &Vec<GoalReply>, from: usize) -> (r: Step<
    Option<TaskRecord>,
>)
    ensures
        seen(r) == task_reply(asked_view(request), context, replies@, from),
{
    if from >= replies.len() {
        return Step::Ask(request);
    }
    match &replies[from] {
        GoalReply::Task(Some(task)) => Step::Ready(Some(task.copy()), from + 1),
        GoalReply::Task(None) => Step::Ready(None, from + 1),
        GoalReply::Failed(error) => Step::Fail(put_in_context(context, error.copy())),
        _ => Step::Fail(put_in_context(context, unexpected())),
    }
}

pub open spec fn goal_reply(
    request: AskedView,
    context: Option<Text>,
    replies: Seq<GoalReply>,
    from: usize,
) -> StepView<Option<GoalTaskView>> {
    if from >= replies.len() {
        StepView::Ask(request)
    } else {
        match replies[from as int] {
            GoalReply::Goal(goal) => StepView::Ready(goal_view(goal), past(from)),
            GoalReply::Failed(error) => StepView::Fail(contextual(context, error)),
            _ => StepView::Fail(contextual(context, unexpected_reply())),
        }
    }
}

pub fn await_goal(request: Asked, context: Option<Text>, replies: &Vec<GoalReply>, from: usize) -> (r: Step<
    Option<GoalTaskRecord>,
>)
    ensures
        seen_extension(r) == goal_reply(asked_view(request), context, replies@, from),
{
    if from >= replies.len() {
        return Step::Ask(request);
    }
    match &replies[from] {
        GoalReply::Goal(Some(goal)) => Step::Ready(Some(goal.copy()), from + 1),
        GoalReply::Goal(None) => Step::Ready(None, from + 1),
        GoalReply::Failed(error) => Step::Fail(put_in_context(context, error.copy())),
        _ => Step::Fail(put_in_context(context, unexpected())),
    }
}

pub open spec fn continuation_reply(
    request: AskedView,
    replies: Seq<GoalReply>,
    from: usize,
) -> StepView<Option<TaskContinuationContext>> {
    if from >= replies.len() {
        StepView::Ask(request)
    } else {
        match replies[from as int] {
            GoalReply::Continuation(context) => StepView::Ready(context, past(from)),
            GoalReply::Failed(error) => StepView::Fail(error),
            _ => StepView::Fail(unexpected_reply()),
        }
    }
}

pub fn await_continuation(request: Asked, replies: &Vec<GoalReply>, from: usize) -> (r: Step<
    Option<TaskContinuationContext>,
>)
    ensures
        seen(r) == continuation_reply(asked_view(request), replies@, from),
{
    if from >= replies.len() {
        return Step::Ask(request);
    }
    match &replies[from] {
        GoalReply::Continuation(Some(context)) => Step::Ready(Some(context.copy()), from + 1),
        GoalReply::Continuation(None) => Step::Ready(None, from + 1),
        GoalReply::Failed(error) => Step::Fail(error.copy()),
        _ => Step::Fail(unexpected()),
    }
}

pub open spec fn applied_reply(
    request: AskedView,
    context: Option<Text>,
    replies: Seq<GoalReply>,
    from: usize,
) -> StepView<bool> {
    if from >= replies.len() {
        StepView::Ask(request)
    } else {
        match replies[from as int] {
            GoalReply::Applied(applied) => StepView::Ready(applied, past(from)),
            GoalReply::Failed(error) => StepView::Fail(contextual(context, error)),
            _ => StepView::Fail(contextual(context, unexpected_reply())),
        }
    }
}

pub fn await_applied(request: Asked, context: Option<Text>, replies: &Vec<GoalReply>, from: usize) -> (r: Step<bool>)
    ensures
        seen(r) == applied_reply(asked_view(request), context, replies@, from),
{
    if from >= replies.len() {
        return Step::Ask(request);
    }
    match &replies[from] {
        GoalReply::Applied(applied) => Step::Ready(*applied, from + 1),
        GoalReply::Failed(error) => Step::Fail(put_in_context(context, error.copy())),
        _ => Step::Fail(put_in_context(context, unexpected())),
    }
}

pub open spec fn done_reply(
    request: AskedView,
    context: Option<Text>,
    replies: Seq<GoalReply>,
    from: usize,
) -> StepView<()> {
    if from >= replies.len() {
        StepView::Ask(request)
    } else {
        match replies[from as int] {
            GoalReply::Done => StepView::Ready((), past(from)),
            GoalReply::Failed(error) => StepView::Fail(contextual(context, error)),
            _ => StepView::Fail(contextual(context, unexpected_reply())),
        }
    }
}

pub fn await_done(request: Asked, context: Option<Text>, replies: &Vec<GoalReply>, from: usize) -> (r: Step<()>)
    ensures
        seen(r) == done_reply(asked_view(request), context, replies@, from),
{
    if from >= replies.len() {
        return Step::Ask(request);
    }
    match &replies[from] {
        GoalReply::Done => Step::Ready((), from + 1),
        GoalReply::Failed(error) => Step::Fail(put_in_context(context, error.copy())),
        _ => Step::Fail(put_in_context(context, unexpected())),
    }
}

pub open spec fn usage_reply(task_id: String, access: LedgerAccess, replies: Seq<GoalReply>, from: usize) -> StepView<
    Option<GoalUsageTotals>,
> {
    if from >= replies.len() {
        StepView::Ask(GoalRequest::ReadUsage { task_id, access })
    } else {
        match replies[from as int] {
            GoalReply::Usage(usage) => StepView::Ready(usage, past(from)),
            _ => StepView::Fail(unexpected_reply()),
        }
    }
}

pub fn await_usage(task_id: &String, access: LedgerAccess, replies: &Vec<GoalReply>, from: usize) -> (r: Step<
    Option<GoalUsageTotals>,
>)
    ensures
        seen(r) == usage_reply(*task_id, access, replies@, from),
{
    if from >= replies.len() {
        return Step::Ask(GoalRequest::ReadUsage { task_id: task_id.clone(), access });
    }
    match &replies[from] {
        GoalReply::Usage(usage) => Step::Ready(*usage, from + 1),
        _ => Step::Fail(unexpected()),
    }
}

pub open spec fn tracking_reply(replies: Seq<GoalReply>, from: usize) -> StepView<Option<CostTracking>> {
    if from >= replies.len() {
        StepView::Ask(GoalRequest::ReadTracking)
    } else {
        match replies[from as int] {
            GoalReply::Tracking(tracking) => StepView::Ready(tracking, past(from)),
            _ => StepView::Fail(unexpected_reply()),
        }
    }
}

pub fn await_tracking(replies: &Vec<GoalReply>, from: usize) -> (r: Step<Option<CostTracking>>)
    ensures
        seen(r) == tracking_reply(replies@, from),
{
    if from >= replies.len() {
        return Step::Ask(GoalRequest::ReadTracking);
    }
    match &replies[from] {
        GoalReply::Tracking(tracking) => Step::Ready(*tracking, from + 1),
        _ => Step::Fail(unexpected()),
    }
}

pub open spec fn ledger_reply(replies: Seq<GoalReply>, from: usize) -> StepView<Option<TrackerState>> {
    if from >= replies.len() {
        StepView::Ask(GoalRequest::ReadLedger)
    } else {
        match replies[from as int] {
            GoalReply::Ledger(ledger) => StepView::Ready(ledger, past(from)),
            _ => StepView::Fail(unexpected_reply()),
        }
    }
}

pub fn await_ledger(replies: &Vec<GoalReply>, from: usize) -> (r: Step<Option<TrackerState>>)
    ensures
        seen(r) == ledger_reply(replies@, from),
{
    if from >= replies.len() {
        return Step::Ask(GoalRequest::ReadLedger);
    }
    match &replies[from] {
        GoalReply::Ledger(ledger) => Step::Ready(*ledger, from + 1),
        _ => Step::Fail(unexpected()),
    }
}

} // verus!
