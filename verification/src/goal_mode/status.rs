//! What a session is told about its goal.
use vstd::prelude::*;
#[allow(unused_imports)]
use vstd::string::*;

use super::terminal::{
    reason_code, reason_of_code, shown_detail, shown_provider, split_durable_terminal_record, GoalTerminalReason,
};
use crate::goal_task::{GoalAccountingState, GoalBlocker, GoalPauseReason, GoalTaskRecord, GoalTaskView};
use crate::message::Text;
use crate::task::{TaskRecord, TaskStatus};
use crate::text::opt_view;
use crate::usd::Usd;

verus! {

/// The state of a goal as its session sees it.
#[derive(Debug, PartialEq, Eq)]
pub struct GoalStatusProjection {
    pub task_id: String,
    pub status: TaskStatus,
    pub execution_epoch: i64,
    pub token_limit: Option<u64>,
    pub cost_limit_usd: Option<Usd>,
    pub accounting_state: GoalAccountingState,
    pub pause_reason: Option<GoalPauseReason>,
    pub terminal_reason: Option<GoalTerminalReason>,
    pub terminal_provider: Option<String>,
    pub terminal_detail: Option<String>,
    pub pause_description: Option<Text>,
    pub blocker_messages: Vec<Text>,
    pub resumable: bool,
}

/// What a `GoalStatusProjection` holds.
#[verifier::ext_equal]
pub struct ProjectionView {
    pub task_id: String,
    pub status: TaskStatus,
    pub execution_epoch: i64,
    pub token_limit: Option<u64>,
    pub cost_limit_usd: Option<Usd>,
    pub accounting_state: GoalAccountingState,
    pub pause_reason: Option<GoalPauseReason>,
    pub terminal_reason: Option<GoalTerminalReason>,
    pub terminal_provider: Option<Seq<char>>,
    pub terminal_detail: Option<Seq<char>>,
    pub pause_description: Option<Text>,
    pub blocker_messages: Seq<Text>,
    pub resumable: bool,
}

impl View for GoalStatusProjection {
    type V = ProjectionView;

    open spec fn view(&self) -> ProjectionView {
        ProjectionView {
            task_id: self.task_id,
            status: self.status,
            execution_epoch: self.execution_epoch,
            token_limit: self.token_limit,
            cost_limit_usd: self.cost_limit_usd,
            accounting_state: self.accounting_state,
            pause_reason: self.pause_reason,
            terminal_reason: self.terminal_reason,
            terminal_provider: opt_view(self.terminal_provider),
            terminal_detail: opt_view(self.terminal_detail),
            pause_description: self.pause_description,
            blocker_messages: self.blocker_messages@,
            resumable: self.resumable,
        }
    }
}

/// The answer to a command.
#[derive(Debug, PartialEq, Eq)]
pub enum GoalResponse {
    Help,
    Disabled,
    Started(GoalStatusProjection),
    Status(GoalStatusProjection),
    Budget(GoalStatusProjection),
    BudgetUpdated(GoalStatusProjection),
    Paused(GoalStatusProjection),
    AlreadyPaused(GoalStatusProjection),
    Resumed(GoalStatusProjection),
    Cancelled(GoalStatusProjection),
    AlreadyCancelled(GoalStatusProjection),
    NoCurrentGoal,
    AlreadyActive,
    ResponseRequiresPause,
    Terminal(GoalStatusProjection),
    Stale,
}

/// Answers that show the state of the goal.
#[derive(Clone, Copy, Debug, PartialEq, Eq, Structural)]
pub enum Shown {
    Started,
    Status,
    Budget,
    BudgetUpdated,
    Paused,
    AlreadyPaused,
    Resumed,
    Cancelled,
    AlreadyCancelled,
    Terminal,
}

/// Answers that do not.
#[derive(Clone, Copy, Debug, PartialEq, Eq, Structural)]
pub enum Plain {
    Help,
    Disabled,
    NoCurrentGoal,
    AlreadyActive,
    ResponseRequiresPause,
    Stale,
}

/// What a `GoalResponse` holds.
pub enum ResponseView {
    Shown(Shown, ProjectionView),
    Plain(Plain),
}

impl View for GoalResponse {
    type V = ResponseView;

    open spec fn view(&self) -> ResponseView {
        match *self {
            GoalResponse::Help => ResponseView::Plain(Plain::Help),
            GoalResponse::Disabled => ResponseView::Plain(Plain::Disabled),
            GoalResponse::Started(p) => ResponseView::Shown(Shown::Started, p@),
            GoalResponse::Status(p) => ResponseView::Shown(Shown::Status, p@),
            GoalResponse::Budget(p) => ResponseView::Shown(Shown::Budget, p@),
            GoalResponse::BudgetUpdated(p) => ResponseView::Shown(Shown::BudgetUpdated, p@),
            GoalResponse::Paused(p) => ResponseView::Shown(Shown::Paused, p@),
            GoalResponse::AlreadyPaused(p) => ResponseView::Shown(Shown::AlreadyPaused, p@),
            GoalResponse::Resumed(p) => ResponseView::Shown(Shown::Resumed, p@),
            GoalResponse::Cancelled(p) => ResponseView::Shown(Shown::Cancelled, p@),
            GoalResponse::AlreadyCancelled(p) => ResponseView::Shown(Shown::AlreadyCancelled, p@),
            GoalResponse::NoCurrentGoal => ResponseView::Plain(Plain::NoCurrentGoal),
            GoalResponse::AlreadyActive => ResponseView::Plain(Plain::AlreadyActive),
            GoalResponse::ResponseRequiresPause => ResponseView::Plain(Plain::ResponseRequiresPause),
            GoalResponse::Terminal(p) => ResponseView::Shown(Shown::Terminal, p@),
            GoalResponse::Stale => ResponseView::Plain(Plain::Stale),
        }
    }
}

/// The answer that shows a state.
pub fn shown_response(kind: Shown, projection: GoalStatusProjection) -> (r: GoalResponse)
    ensures
        r@ == ResponseView::Shown(kind, projection@),
{
    match kind {
        Shown::Started => GoalResponse::Started(projection),
        Shown::Status => GoalResponse::Status(projection),
        Shown::Budget => GoalResponse::Budget(projection),
        Shown::BudgetUpdated => GoalResponse::BudgetUpdated(projection),
        Shown::Paused => GoalResponse::Paused(projection),
        Shown::AlreadyPaused => GoalResponse::AlreadyPaused(projection),
        Shown::Resumed => GoalResponse::Resumed(projection),
        Shown::Cancelled => GoalResponse::Cancelled(projection),
        Shown::AlreadyCancelled => GoalResponse::AlreadyCancelled(projection),
        Shown::Terminal => GoalResponse::Terminal(projection),
    }
}

impl GoalResponse {
    /// Whether the answer ends the work of an executor that is still at it:
    /// only a pause, a cancellation or an end does.
    pub fn retires_resident_supervisor(&self) -> (r: bool)
        ensures
            r == (self@ matches ResponseView::Shown(kind, _) && (kind is Paused || kind is Cancelled || kind is Terminal)),
    {
        match self {
            GoalResponse::Paused(_) => true,
            GoalResponse::Cancelled(_) => true,
            GoalResponse::Terminal(_) => true,
            _ => false,
        }
    }
}

/// What has to hold for a goal to be resumable.
pub open spec fn resumable_goal(task: TaskRecord, goal: GoalTaskView) -> bool {
    &&& task.status is Paused
    &&& task.execution_epoch < i64::MAX
    &&& goal.clean()
    &&& goal.pending_tool_batch_id is None
    &&& goal.pending_tool_epoch is None
}

pub fn goal_is_resumable(task: &TaskRecord, goal: &GoalTaskRecord) -> (r: bool)
    ensures
        r == resumable_goal(*task, goal@),
{
    task.status == TaskStatus::Paused && task.execution_epoch < i64::MAX && goal.accounting_state
        == GoalAccountingState::Complete && goal.pending_call_id.is_none() && goal.pending_call_epoch.is_none()
        && goal.pending_tool_batch_id.is_none() && goal.pending_tool_epoch.is_none()
}

/// A terminal record, and what the error sanitizer makes of its detail.
#[derive(Debug, PartialEq, Eq)]
pub struct DurableReason {
    pub record: String,
    pub sanitized_detail: String,
}

/// The messages of blockers.
pub open spec fn messages_of(blockers: Seq<GoalBlocker>) -> Seq<Text> {
    blockers.map_values(|blocker: GoalBlocker| blocker.message)
}

/// A goal as its session sees it, before any terminal reason.
pub open spec fn projection(task: TaskRecord, goal: GoalTaskView) -> ProjectionView {
    ProjectionView {
        task_id: task.id,
        status: task.status,
        execution_epoch: task.execution_epoch,
        token_limit: goal.effective_token_limit,
        cost_limit_usd: goal.effective_cost_limit_usd,
        accounting_state: goal.accounting_state,
        pause_reason: goal.pause_reason,
        terminal_reason: None,
        terminal_provider: None,
        terminal_detail: None,
        pause_description: goal.pause_description,
        blocker_messages: messages_of(goal.blockers),
        resumable: resumable_goal(task, goal),
    }
}

/// A projection with the terminal reason that a record gives.
pub open spec fn with_reason(projection: ProjectionView, reason: Option<DurableReason>) -> ProjectionView {
    match reason {
        Some(reason) => ProjectionView {
            terminal_reason: Some(reason_of_code(reason_code(reason.record@))),
            terminal_provider: shown_provider(reason.record@),
            terminal_detail: shown_detail(reason.record@, reason.sanitized_detail@),
            ..projection
        },
        None => projection,
    }
}

/// What a session is told when an execution of its goal ends.
#[derive(Debug, PartialEq, Eq)]
pub enum GoalExecutionNotice {
    Completed,
    PausedForBlocker { blocker_messages: Vec<String> },
    PausedForInterruption,
    Failed {
        terminal_reason: GoalTerminalReason,
        terminal_provider: Option<String>,
        terminal_detail: Option<String>,
    },
}

impl GoalStatusProjection {
    pub fn from_parts(task: &TaskRecord, goal: GoalTaskRecord) -> (r: GoalStatusProjection)
        ensures
            r@ == projection(*task, goal@),
    {
        let resumable = goal_is_resumable(task, &goal);
        let mut blocker_messages: Vec<Text> = Vec::new();
        let mut i: usize = 0;
        while i < goal.blockers.len()
            invariant
                i <= goal.blockers.len(),
                blocker_messages@ == messages_of(goal.blockers@).take(i as int),
            decreases goal.blockers.len() - i,
        {
            blocker_messages.push(goal.blockers[i].message.copy());
            i = i + 1;
            assert(blocker_messages@ =~= messages_of(goal.blockers@).take(i as int));
        }
        assert(messages_of(goal.blockers@).take(i as int) =~= messages_of(goal.blockers@));
        GoalStatusProjection {
            task_id: task.id.clone(),
            status: task.status,
            execution_epoch: task.execution_epoch,
            token_limit: goal.effective_token_limit,
            cost_limit_usd: goal.effective_cost_limit_usd,
            accounting_state: goal.accounting_state,
            pause_reason: goal.pause_reason,
            terminal_reason: None,
            terminal_provider: None,
            terminal_detail: None,
            pause_description: goal.pause_description,
            blocker_messages,
            resumable,
        }
    }

    pub fn with_durable_terminal_reason(self, reason: Option<&DurableReason>) -> (r: GoalStatusProjection)
        ensures
            r@ == with_reason(
                self@,
                match reason {
                    Some(reason) => Some(*reason),
                    None => None,
                },
            ),
    {
        match reason {
            None => self,
            Some(reason) => {
                let (_, detail) = split_durable_terminal_record(
                    reason.record.as_str(),
                    reason.sanitized_detail.as_str(),
                );
                let (terminal_reason, provider) = GoalTerminalReason::from_durable_reason(reason.record.as_str());
                let mut shown = self;
                shown.terminal_reason = Some(terminal_reason);
                shown.terminal_provider = provider;
                shown.terminal_detail = detail;
                shown
            },
        }
    }
}

} // verus!
