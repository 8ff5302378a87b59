//! The controller: from a command to guarded transitions and an answer.
//!
//! The controller never touches the task tables itself. It is given the
//! command and the replies that the registry has sent so far, and says what it
//! wants next: another request, or nothing more because the answer is known or
//! the command has failed. Between two requests anyone may change the tables;
//! the replies are all it goes by.
use vstd::prelude::*;
#[allow(unused_imports)]
use vstd::string::*;

use super::prompt::{paused_request_of, request_view, GoalPausedRequest};
use super::session::{owns_task, GoalIngressContext, GoalSessionKey};
use super::settings::{
    select_budget_update_limits, select_limits, selected_limits, updated_limits, GoalBudgetLimits, GoalBudgetSelection,
    GoalHostSettings, SessionGoalCommand,
};
use super::status::{
    projection, shown_response, with_reason, DurableReason, GoalResponse, GoalStatusProjection, Plain, ProjectionView,
    ResponseView, Shown,
};
use crate::clock::{fresh_uuid, is_timestamp, now_rfc3339, uuid_char};
use crate::error::{failure, GoalError};
use crate::goal_task::{
    GoalAccountingState, GoalBlocker, GoalPauseReason, GoalPauseState, GoalPauseView, GoalTaskRecord, GoalTaskView,
    GoalTransitionResult,
};
use crate::message::Text;
use crate::task::{TaskKind, TaskRecord, TaskStatus};
use crate::text::{opt_view, same_opt, same_text};

verus! {

/// A goal that is about to start in a session.
#[derive(PartialEq, Eq)]
pub struct NewSessionGoal {
    pub session: GoalSessionKey,
    /// The task row, but for its session.
    pub task: TaskRecord,
    pub objective: String,
    pub limits: GoalBudgetLimits,
}

/// A pause without blockers.
#[derive(PartialEq, Eq)]
pub struct BarePause {
    pub reason: GoalPauseReason,
    pub description: Option<Text>,
}

/// What the controller asks of the registry.
#[derive(PartialEq, Eq)]
#[allow(inconsistent_fields)]
pub enum RegistryRequest {
    /// The goal that occupies a session.
    CurrentGoal { session: GoalSessionKey },
    /// The extension row of a goal.
    Extension { task_id: String },
    /// Why the goal of a session ended.
    TerminalReason { task_id: String, session: GoalSessionKey },
    /// Start a goal, in place of a finished one.
    Create(NewSessionGoal),
    /// Pause a goal.
    Pause { task_id: String, session: GoalSessionKey, epoch: i64, pause: BarePause },
    /// Resume a goal under an owner.
    Resume { task_id: String, session: GoalSessionKey, epoch: i64, owner_pid: u32, owner_boot_id: String },
    /// End a goal with a terminal status.
    Finish { task_id: String, session: GoalSessionKey, epoch: i64, status: TaskStatus, reason: Option<Text> },
    /// Change the limits of a goal.
    UpdateLimits { task_id: String, session: GoalSessionKey, epoch: i64, limits: GoalBudgetLimits },
}

/// What the registry replies.
#[derive(PartialEq, Eq)]
pub enum RegistryReply {
    Task(Option<TaskRecord>),
    Extension(Option<GoalTaskRecord>),
    Reason(Option<DurableReason>),
    Transition(GoalTransitionResult),
    Failed(GoalError),
}

/// How far the controller has come with the replies it was given.
#[derive(PartialEq, Eq)]
pub enum Progress<T> {
    /// It needs the reply to this request.
    Ask(RegistryRequest),
    /// The command has failed.
    Fail(GoalError),
    /// It has what it wanted, from the replies up to this one.
    Ready(T, usize),
}

/// What a new goal takes from its surroundings.
#[derive(PartialEq, Eq)]
pub struct GoalTicket {
    pub task_id: String,
    pub started_at: String,
}

/// A command, where it comes from, and whether a session admitted it.
#[derive(PartialEq, Eq)]
pub struct AdmittedCommand {
    pub ingress: GoalIngressContext,
    pub command: SessionGoalCommand,
    pub admitted: bool,
    /// What the objective validator has against the objective, if anything.
    pub objective_refusal: Option<String>,
}

/// The controller of session goals.
#[derive(Debug, Clone, Copy)]
pub struct GoalController;

impl NewSessionGoal {
    /// The extension row of the goal.
    pub open spec fn extension(self) -> GoalTaskView {
        GoalTaskView {
            task_id: self.task.id,
            objective: self.objective,
            effective_token_limit: self.limits.token_limit,
            effective_cost_limit_usd: self.limits.cost_limit_usd,
            pause_reason: None,
            pause_description: None,
            blockers: Seq::<GoalBlocker>::empty(),
            pending_call_id: None,
            pending_call_epoch: None,
            pending_tool_batch_id: None,
            pending_tool_epoch: None,
            accounting_state: GoalAccountingState::Complete,
        }
    }

    /// A task row of the goal, in its session.
    pub open spec fn is_task(self, task: TaskRecord) -> bool {
        &&& task == (TaskRecord { session_id: task.session_id, ..self.task })
        &&& opt_view(task.session_id) == Some(self.session.id())
    }

    /// Both rows of the goal.
    pub fn into_records(self) -> (r: (TaskRecord, GoalTaskRecord))
        ensures
            self.is_task(r.0),
            r.1@ == self.extension(),
    {
        let goal = GoalTaskRecord {
            task_id: self.task.id.clone(),
            objective: self.objective,
            effective_token_limit: self.limits.token_limit,
            effective_cost_limit_usd: self.limits.cost_limit_usd,
            pause_reason: None,
            pause_description: None,
            blockers: Vec::new(),
            pending_call_id: None,
            pending_call_epoch: None,
            pending_tool_batch_id: None,
            pending_tool_epoch: None,
            accounting_state: GoalAccountingState::Complete,
        };
        let mut task = self.task;
        task.session_id = Some(self.session.durable_id());
        (task, goal)
    }
}

impl BarePause {
    /// The pause as it is stored.
    pub open spec fn state(self) -> GoalPauseView {
        GoalPauseView {
            reason: self.reason,
            description: self.description,
            blockers: Seq::<GoalBlocker>::empty(),
        }
    }

    pub fn into_state(self) -> (r: GoalPauseState)
        ensures
            r@ == self.state(),
    {
        let r = GoalPauseState { reason: self.reason, description: self.description, blockers: Vec::new() };
        assert(r@ =~= self.state());
        r
    }
}

/// The pause that an operator asks for.
pub open spec fn operator_pause() -> BarePause {
    BarePause { reason: GoalPauseReason::OperatorPaused, description: None }
}

impl GoalTicket {
    /// A fresh identity and the time. Which they are depends on chance and on
    /// the clock.
    pub fn draw() -> (r: GoalTicket)
        ensures
            r.task_id@.len() == 36,
            forall|i: int| 0 <= i < 36 ==> uuid_char(#[trigger] r.task_id@[i]),
            is_timestamp(r.started_at@),
    {
        GoalTicket { task_id: fresh_uuid(), started_at: now_rfc3339() }
    }
}

/// A reply that answers another request.
pub open spec fn unexpected_reply() -> GoalError {
    failure(Text::Fixed("goal registry sent an unexpected reply"))
}

fn unexpected() -> (r: GoalError)
    ensures
        r == unexpected_reply(),
{
    GoalError::new(Text::Fixed("goal registry sent an unexpected reply"))
}

pub open spec fn after_reply(from: usize) -> usize {
    (from + 1) as usize
}

// ---------------------------------------------------------------- lookups
/// The goal that occupies the session, whoever owns it.
pub open spec fn occupant(ingress: GoalIngressContext, replies: Seq<RegistryReply>, from: usize) -> Progress<
    Option<TaskRecord>,
> {
    if from >= replies.len() {
        Progress::Ask(RegistryRequest::CurrentGoal { session: ingress.key() })
    } else {
        match replies[from as int] {
            RegistryReply::Task(task) => Progress::Ready(task, after_reply(from)),
            RegistryReply::Failed(error) => Progress::Fail(error),
            _ => Progress::Fail(unexpected_reply()),
        }
    }
}

/// The goal that occupies the session, if the speaker owns it. To anyone else
/// the session has none.
pub open spec fn current(ingress: GoalIngressContext, replies: Seq<RegistryReply>, from: usize) -> Progress<
    Option<TaskRecord>,
> {
    match occupant(ingress, replies, from) {
        Progress::Ready(Some(task), next) => if owns_task(ingress, task.principal_id) {
            Progress::Ready(Some(task), next)
        } else {
            Progress::Ready(None, next)
        },
        other => other,
    }
}

/// The state of a goal that was just read. A goal without its extension is an
/// error, unless it is no longer the current one.
pub open spec fn project_current(
    ingress: GoalIngressContext,
    task: TaskRecord,
    replies: Seq<RegistryReply>,
    from: usize,
) -> Progress<Option<ProjectionView>> {
    if from >= replies.len() {
        Progress::Ask(RegistryRequest::Extension { task_id: task.id })
    } else {
        match replies[from as int] {
            RegistryReply::Extension(Some(goal)) => if !task.status.terminal() {
                Progress::Ready(Some(projection(task, goal@)), after_reply(from))
            } else if after_reply(from) >= replies.len() {
                Progress::Ask(RegistryRequest::TerminalReason { task_id: task.id, session: ingress.key() })
            } else {
                match replies[from + 1] {
                    RegistryReply::Reason(reason) => Progress::Ready(
                        Some(with_reason(projection(task, goal@), reason)),
                        after_reply(after_reply(from)),
                    ),
                    RegistryReply::Failed(error) => Progress::Fail(error),
                    _ => Progress::Fail(unexpected_reply()),
                }
            },
            RegistryReply::Extension(None) => match current(ingress, replies, after_reply(from)) {
                Progress::Ask(request) => Progress::Ask(request),
                Progress::Fail(error) => Progress::Fail(error),
                Progress::Ready(now, next) => if now matches Some(now) && now.id@ == task.id@ {
                    Progress::Fail(failure(Text::Fixed("Goal task extension is missing")))
                } else {
                    Progress::Ready(None, next)
                },
            },
            RegistryReply::Failed(error) => Progress::Fail(error),
            _ => Progress::Fail(unexpected_reply()),
        }
    }
}

/// The state of the goal with that id, read anew; none if it is no longer the
/// current one.
pub open spec fn project_task(
    ingress: GoalIngressContext,
    task_id: Seq<char>,
    replies: Seq<RegistryReply>,
    from: usize,
) -> Progress<Option<ProjectionView>> {
    match current(ingress, replies, from) {
        Progress::Ask(request) => Progress::Ask(request),
        Progress::Fail(error) => Progress::Fail(error),
        Progress::Ready(None, next) => Progress::Ready(None, next),
        Progress::Ready(Some(task), next) => if task.id@ != task_id {
            Progress::Ready(None, next)
        } else {
            project_current(ingress, task, replies, next)
        },
    }
}

/// The answer that shows a state; stale where there is none to show.
pub open spec fn showing(kind: Shown, state: Progress<Option<ProjectionView>>) -> Progress<ResponseView> {
    match state {
        Progress::Ask(request) => Progress::Ask(request),
        Progress::Fail(error) => Progress::Fail(error),
        Progress::Ready(Some(shown), next) => Progress::Ready(ResponseView::Shown(kind, shown), next),
        Progress::Ready(None, next) => Progress::Ready(ResponseView::Plain(Plain::Stale), next),
    }
}

pub open spec fn plainly(kind: Plain, next: usize) -> Progress<ResponseView> {
    Progress::Ready(ResponseView::Plain(kind), next)
}

/// The outcome of a transition that was asked for.
pub open spec fn transition(request: RegistryRequest, replies: Seq<RegistryReply>, from: usize) -> Progress<
    GoalTransitionResult,
> {
    if from >= replies.len() {
        Progress::Ask(request)
    } else {
        match replies[from as int] {
            RegistryReply::Transition(result) => Progress::Ready(result, after_reply(from)),
            RegistryReply::Failed(error) => Progress::Fail(error),
            _ => Progress::Fail(unexpected_reply()),
        }
    }
}

/// The answer to a transition of the current goal: its new state if it was
/// applied, stale otherwise.
pub open spec fn applied_or_stale(
    ingress: GoalIngressContext,
    kind: Shown,
    task_id: Seq<char>,
    outcome: Progress<GoalTransitionResult>,
    replies: Seq<RegistryReply>,
) -> Progress<ResponseView> {
    match outcome {
        Progress::Ask(request) => Progress::Ask(request),
        Progress::Fail(error) => Progress::Fail(error),
        Progress::Ready(GoalTransitionResult::Applied, next) => showing(
            kind,
            project_task(ingress, task_id, replies, next),
        ),
        Progress::Ready(_, next) => plainly(Plain::Stale, next),
    }
}

// ---------------------------------------------------------------- commands
/// The goal that a start asks for.
pub open spec fn new_session_goal(
    settings: GoalHostSettings,
    ingress: GoalIngressContext,
    objective: String,
    limits: GoalBudgetLimits,
    ticket: GoalTicket,
) -> NewSessionGoal {
    NewSessionGoal {
        session: ingress.key(),
        task: TaskRecord {
            id: ticket.task_id,
            kind: TaskKind::Goal,
            agent: ingress.addressed(),
            status: TaskStatus::Running,
            owner_pid: settings.pid(),
            owner_boot_id: settings.boot(),
            heartbeat_at: None,
            depth: 0,
            parent_id: None,
            originator_route: Some(ingress.came_by()),
            delivered: false,
            idem_key: None,
            principal_id: ingress.durable_principal(),
            session_id: None,
            execution_epoch: 1,
            started_at: ticket.started_at,
            finished_at: None,
        },
        objective,
        limits,
    }
}

pub open spec fn start(
    settings: GoalHostSettings,
    ingress: GoalIngressContext,
    selection: GoalBudgetSelection,
    objective: String,
    refusal: Option<String>,
    ticket: GoalTicket,
    replies: Seq<RegistryReply>,
) -> Progress<ResponseView> {
    match refusal {
        Some(refusal) => Progress::Fail(failure(Text::Plain(refusal))),
        None => match selected_limits(settings.defaults(), selection) {
            Err(error) => Progress::Fail(error),
            Ok(limits) => match transition(
                RegistryRequest::Create(new_session_goal(settings, ingress, objective, limits, ticket)),
                replies,
                0,
            ) {
                Progress::Ask(request) => Progress::Ask(request),
                Progress::Fail(error) => Progress::Fail(error),
                Progress::Ready(GoalTransitionResult::Applied, next) => showing(
                    Shown::Started,
                    project_task(ingress, ticket.task_id@, replies, next),
                ),
                Progress::Ready(GoalTransitionResult::Stale, next) => start_refused(ingress, replies, next),
                Progress::Ready(GoalTransitionResult::Missing, next) => plainly(Plain::Stale, next),
            },
        },
    }
}

/// The answer to a start in a session that is taken. A speaker who does not
/// own the goal there learns nothing of it.
pub open spec fn start_refused(ingress: GoalIngressContext, replies: Seq<RegistryReply>, from: usize) -> Progress<
    ResponseView,
> {
    match occupant(ingress, replies, from) {
        Progress::Ask(request) => Progress::Ask(request),
        Progress::Fail(error) => Progress::Fail(error),
        Progress::Ready(None, next) => plainly(Plain::Stale, next),
        Progress::Ready(Some(task), next) => if !owns_task(ingress, task.principal_id) {
            plainly(Plain::NoCurrentGoal, next)
        } else if !task.status.terminal() {
            plainly(Plain::AlreadyActive, next)
        } else {
            showing(Shown::Terminal, project_current(ingress, task, replies, next))
        },
    }
}

pub open spec fn status(ingress: GoalIngressContext, budget: bool, replies: Seq<RegistryReply>) -> Progress<
    ResponseView,
> {
    match current(ingress, replies, 0) {
        Progress::Ask(request) => Progress::Ask(request),
        Progress::Fail(error) => Progress::Fail(error),
        Progress::Ready(None, next) => plainly(Plain::NoCurrentGoal, next),
        Progress::Ready(Some(task), next) => showing(
            if task.status.terminal() {
                Shown::Terminal
            } else if budget {
                Shown::Budget
            } else {
                Shown::Status
            },
            project_current(ingress, task, replies, next),
        ),
    }
}

pub open spec fn set_budget(
    ingress: GoalIngressContext,
    selection: GoalBudgetSelection,
    replies: Seq<RegistryReply>,
) -> Progress<ResponseView> {
    match current(ingress, replies, 0) {
        Progress::Ask(request) => Progress::Ask(request),
        Progress::Fail(error) => Progress::Fail(error),
        Progress::Ready(None, next) => plainly(Plain::NoCurrentGoal, next),
        Progress::Ready(Some(task), next) => if task.status.terminal() {
            showing(Shown::Terminal, project_current(ingress, task, replies, next))
        } else {
            match updated_limits(selection) {
                Err(error) => Progress::Fail(error),
                Ok(limits) => applied_or_stale(
                    ingress,
                    Shown::BudgetUpdated,
                    task.id@,
                    transition(
                        RegistryRequest::UpdateLimits {
                            task_id: task.id,
                            session: ingress.key(),
                            epoch: task.execution_epoch,
                            limits,
                        },
                        replies,
                        next,
                    ),
                    replies,
                ),
            }
        },
    }
}

pub open spec fn pause(ingress: GoalIngressContext, replies: Seq<RegistryReply>) -> Progress<ResponseView> {
    match current(ingress, replies, 0) {
        Progress::Ask(request) => Progress::Ask(request),
        Progress::Fail(error) => Progress::Fail(error),
        Progress::Ready(None, next) => plainly(Plain::NoCurrentGoal, next),
        Progress::Ready(Some(task), next) => if task.status is Paused {
            showing(Shown::AlreadyPaused, project_current(ingress, task, replies, next))
        } else if task.status.terminal() {
            showing(Shown::Terminal, project_current(ingress, task, replies, next))
        } else {
            applied_or_stale(
                ingress,
                Shown::Paused,
                task.id@,
                transition(
                    RegistryRequest::Pause {
                        task_id: task.id,
                        session: ingress.key(),
                        epoch: task.execution_epoch,
                        pause: operator_pause(),
                    },
                    replies,
                    next,
                ),
                replies,
            )
        },
    }
}

pub open spec fn cancel(ingress: GoalIngressContext, replies: Seq<RegistryReply>) -> Progress<ResponseView> {
    match current(ingress, replies, 0) {
        Progress::Ask(request) => Progress::Ask(request),
        Progress::Fail(error) => Progress::Fail(error),
        Progress::Ready(None, next) => plainly(Plain::NoCurrentGoal, next),
        Progress::Ready(Some(task), next) => if task.status is Cancelled {
            showing(Shown::AlreadyCancelled, project_current(ingress, task, replies, next))
        } else if task.status.terminal() {
            showing(Shown::Terminal, project_current(ingress, task, replies, next))
        } else {
            applied_or_stale(
                ingress,
                Shown::Cancelled,
                task.id@,
                transition(
                    RegistryRequest::Finish {
                        task_id: task.id,
                        session: ingress.key(),
                        epoch: task.execution_epoch,
                        status: TaskStatus::Cancelled,
                        reason: None,
                    },
                    replies,
                    next,
                ),
                replies,
            )
        },
    }
}

/// An answer, and the request of the agent that a resume replays.
pub type Answer = (ResponseView, Option<(crate::goal_task::GoalBlockerKind, Seq<char>)>);

/// An answer that replays nothing.
pub open spec fn without_request(answer: Progress<ResponseView>) -> Progress<Answer> {
    match answer {
        Progress::Ask(request) => Progress::Ask(request),
        Progress::Fail(error) => Progress::Fail(error),
        Progress::Ready(response, next) => Progress::Ready((response, None), next),
    }
}

/// What the agent had asked for when the goal paused.
pub open spec fn read_request(task_id: String, replies: Seq<RegistryReply>, from: usize) -> Progress<
    Option<(crate::goal_task::GoalBlockerKind, Seq<char>)>,
> {
    if from >= replies.len() {
        Progress::Ask(RegistryRequest::Extension { task_id })
    } else {
        match replies[from as int] {
            RegistryReply::Extension(Some(goal)) => Progress::Ready(
                paused_request_of(goal.blockers@),
                after_reply(from),
            ),
            RegistryReply::Extension(None) => Progress::Ready(None, after_reply(from)),
            RegistryReply::Failed(error) => Progress::Fail(error),
            _ => Progress::Fail(unexpected_reply()),
        }
    }
}

pub open spec fn resume(
    settings: GoalHostSettings,
    ingress: GoalIngressContext,
    has_response: bool,
    replies: Seq<RegistryReply>,
) -> Progress<Answer> {
    match current(ingress, replies, 0) {
        Progress::Ask(request) => Progress::Ask(request),
        Progress::Fail(error) => Progress::Fail(error),
        Progress::Ready(None, next) => without_request(plainly(Plain::NoCurrentGoal, next)),
        Progress::Ready(Some(task), next) => if task.status.terminal() {
            without_request(showing(Shown::Terminal, project_current(ingress, task, replies, next)))
        } else if !(task.status is Paused) {
            without_request(
                plainly(
                    if has_response {
                        Plain::ResponseRequiresPause
                    } else {
                        Plain::AlreadyActive
                    },
                    next,
                ),
            )
        } else {
            match read_request(task.id, replies, next) {
                Progress::Ask(request) => Progress::Ask(request),
                Progress::Fail(error) => Progress::Fail(error),
                Progress::Ready(paused_request, next) => match transition(
                    RegistryRequest::Resume {
                        task_id: task.id,
                        session: ingress.key(),
                        epoch: task.execution_epoch,
                        owner_pid: settings.pid(),
                        owner_boot_id: settings.boot(),
                    },
                    replies,
                    next,
                ) {
                    Progress::Ask(request) => Progress::Ask(request),
                    Progress::Fail(error) => Progress::Fail(error),
                    Progress::Ready(GoalTransitionResult::Applied, next) => match showing(
                        Shown::Resumed,
                        project_task(ingress, task.id@, replies, next),
                    ) {
                        Progress::Ask(request) => Progress::Ask(request),
                        Progress::Fail(error) => Progress::Fail(error),
                        Progress::Ready(response, next) => Progress::Ready((response, paused_request), next),
                    },
                    Progress::Ready(GoalTransitionResult::Stale, next) => without_request(
                        resume_refused(ingress, replies, next),
                    ),
                    Progress::Ready(GoalTransitionResult::Missing, next) => without_request(
                        plainly(Plain::Stale, next),
                    ),
                },
            }
        },
    }
}

/// The answer to a resume that no longer applies: the state as it is now.
pub open spec fn resume_refused(ingress: GoalIngressContext, replies: Seq<RegistryReply>, from: usize) -> Progress<
    ResponseView,
> {
    match current(ingress, replies, from) {
        Progress::Ask(request) => Progress::Ask(request),
        Progress::Fail(error) => Progress::Fail(error),
        Progress::Ready(None, next) => plainly(Plain::Stale, next),
        Progress::Ready(Some(task), next) => showing(
            if task.status.terminal() {
                Shown::Terminal
            } else {
                Shown::Status
            },
            project_current(ingress, task, replies, next),
        ),
    }
}

/// The answer to a command.
pub open spec fn answer(
    settings: GoalHostSettings,
    submission: AdmittedCommand,
    ticket: GoalTicket,
    replies: Seq<RegistryReply>,
) -> Progress<Answer> {
    if submission.command is Help {
        without_request(plainly(Plain::Help, 0))
    } else if !submission.admitted || !settings.on() {
        without_request(plainly(Plain::Disabled, 0))
    } else {
        match submission.command {
            SessionGoalCommand::Start { budget, objective } => without_request(
                start(settings, submission.ingress, budget, objective, submission.objective_refusal, ticket, replies),
            ),
            SessionGoalCommand::Status => without_request(status(submission.ingress, false, replies)),
            SessionGoalCommand::Budget => without_request(status(submission.ingress, true, replies)),
            SessionGoalCommand::SetBudget(selection) => without_request(
                set_budget(submission.ingress, selection, replies),
            ),
            SessionGoalCommand::Pause => without_request(pause(submission.ingress, replies)),
            SessionGoalCommand::PauseNow => without_request(pause(submission.ingress, replies)),
            SessionGoalCommand::Resume { response } => resume(
                settings,
                submission.ingress,
                response is Some,
                replies,
            ),
            SessionGoalCommand::Cancel => without_request(cancel(submission.ingress, replies)),
            SessionGoalCommand::Help => without_request(plainly(Plain::Help, 0)),
        }
    }
}

// ---------------------------------------------------------------- execution
pub open spec fn state_view(p: Progress<Option<GoalStatusProjection>>) -> Progress<Option<ProjectionView>> {
    match p {
        Progress::Ask(request) => Progress::Ask(request),
        Progress::Fail(error) => Progress::Fail(error),
        Progress::Ready(Some(shown), next) => Progress::Ready(Some(shown@), next),
        Progress::Ready(None, next) => Progress::Ready(None, next),
    }
}

pub open spec fn response_view(p: Progress<GoalResponse>) -> Progress<ResponseView> {
    match p {
        Progress::Ask(request) => Progress::Ask(request),
        Progress::Fail(error) => Progress::Fail(error),
        Progress::Ready(response, next) => Progress::Ready(response@, next),
    }
}

pub open spec fn answer_view(p: Progress<(GoalResponse, Option<GoalPausedRequest>)>) -> Progress<Answer> {
    match p {
        Progress::Ask(request) => Progress::Ask(request),
        Progress::Fail(error) => Progress::Fail(error),
        Progress::Ready((response, request), next) => Progress::Ready((response@, request_view(request)), next),
    }
}

/// Whether the speaker owns a stored goal.
pub fn ingress_owns_task(ingress: &GoalIngressContext, task: &TaskRecord) -> (r: bool)
    ensures
        r == owns_task(*ingress, task.principal_id),
{
    match ingress.session_key() {
        GoalSessionKey::ZeroCode { .. } => true,
        GoalSessionKey::Matrix { .. } => same_opt(&task.principal_id, &ingress.durable_principal_id()),
    }
}

fn read_occupant(ingress: &GoalIngressContext, replies: &Vec<RegistryReply>, from: usize) -> (r: Progress<
    Option<TaskRecord>,
>)
    ensures
        r == occupant(*ingress, replies@, from),
{
    if from >= replies.len() {
        return Progress::Ask(RegistryRequest::CurrentGoal { session: ingress.session_key().copy() });
    }
    match &replies[from] {
        RegistryReply::Task(task) => {
            let found = match task {
                Some(task) => Some(task.copy()),
                None => None,
            };
            Progress::Ready(found, from + 1)
        },
        RegistryReply::Failed(error) => Progress::Fail(error.copy()),
        _ => Progress::Fail(unexpected()),
    }
}

fn read_current(ingress: &GoalIngressContext, replies: &Vec<RegistryReply>, from: usize) -> (r: Progress<
    Option<TaskRecord>,
>)
    ensures
        r == current(*ingress, replies@, from),
{
    match read_occupant(ingress, replies, from) {
        Progress::Ready(Some(task), next) => if ingress_owns_task(ingress, &task) {
            Progress::Ready(Some(task), next)
        } else {
            Progress::Ready(None, next)
        },
        other => other,
    }
}

fn read_state(ingress: &GoalIngressContext, task: &TaskRecord, replies: &Vec<RegistryReply>, from: usize) -> (r:
    Progress<Option<GoalStatusProjection>>)
    ensures
        state_view(r) == project_current(*ingress, *task, replies@, from),
{
    if from >= replies.len() {
        return Progress::Ask(RegistryRequest::Extension { task_id: task.id.clone() });
    }
    match &replies[from] {
        RegistryReply::Extension(Some(goal)) => {
            if !task.status.is_terminal() {
                return Progress::Ready(Some(GoalStatusProjection::from_parts(task, goal.copy())), from + 1);
            }
            if from + 1 >= replies.len() {
                return Progress::Ask(
                    RegistryRequest::TerminalReason { task_id: task.id.clone(), session: ingress.session_key().copy() },
                );
            }
            match &replies[from + 1] {
                RegistryReply::Reason(reason) => {
                    let state = GoalStatusProjection::from_parts(task, goal.copy());
                    let next: usize = from + 2;
                    match reason {
                        Some(reason) => Progress::Ready(Some(state.with_durable_terminal_reason(Some(reason))), next),
                        None => Progress::Ready(Some(state.with_durable_terminal_reason(None)), next),
                    }
                },
                RegistryReply::Failed(error) => Progress::Fail(error.copy()),
                _ => Progress::Fail(unexpected()),
            }
        },
        RegistryReply::Extension(None) => {
            match read_current(ingress, replies, from + 1) {
                Progress::Ask(request) => Progress::Ask(request),
                Progress::Fail(error) => Progress::Fail(error),
                Progress::Ready(now, next) => {
                    let still_current = match &now {
                        Some(now) => same_text(now.id.as_str(), task.id.as_str()),
                        None => false,
                    };
                    if still_current {
                        Progress::Fail(GoalError::new(Text::Fixed("Goal task extension is missing")))
                    } else {
                        Progress::Ready(None, next)
                    }
                },
            }
        },
        RegistryReply::Failed(error) => Progress::Fail(error.copy()),
        _ => Progress::Fail(unexpected()),
    }
}

fn read_task_state(ingress: &GoalIngressContext, task_id: &str, replies: &Vec<RegistryReply>, from: usize) -> (r:
    Progress<Option<GoalStatusProjection>>)
    ensures
        state_view(r) == project_task(*ingress, task_id@, replies@, from),
{
    match read_current(ingress, replies, from) {
        Progress::Ask(request) => Progress::Ask(request),
        Progress::Fail(error) => Progress::Fail(error),
        Progress::Ready(None, next) => Progress::Ready(None, next),
        Progress::Ready(Some(task), next) => if !same_text(task.id.as_str(), task_id) {
            Progress::Ready(None, next)
        } else {
            read_state(ingress, &task, replies, next)
        },
    }
}

fn show(kind: Shown, state: Progress<Option<GoalStatusProjection>>) -> (r: Progress<GoalResponse>)
    ensures
        response_view(r) == showing(kind, state_view(state)),
{
    match state {
        Progress::Ask(request) => Progress::Ask(request),
        Progress::Fail(error) => Progress::Fail(error),
        Progress::Ready(Some(shown), next) => Progress::Ready(shown_response(kind, shown), next),
        Progress::Ready(None, next) => Progress::Ready(GoalResponse::Stale, next),
    }
}

fn read_transition(request: RegistryRequest, replies: &Vec<RegistryReply>, from: usize) -> (r: Progress<
    GoalTransitionResult,
>)
    ensures
        r == transition(request, replies@, from),
{
    if from >= replies.len() {
        return Progress::Ask(request);
    }
    match &replies[from] {
        RegistryReply::Transition(result) => Progress::Ready(*result, from + 1),
        RegistryReply::Failed(error) => Progress::Fail(error.copy()),
        _ => Progress::Fail(unexpected()),
    }
}

fn show_applied(
    ingress: &GoalIngressContext,
    kind: Shown,
    task_id: &str,
    outcome: Progress<GoalTransitionResult>,
    replies: &Vec<RegistryReply>,
) -> (r: Progress<GoalResponse>)
    ensures
        response_view(r) == applied_or_stale(*ingress, kind, task_id@, outcome, replies@),
{
    match outcome {
        Progress::Ask(request) => Progress::Ask(request),
        Progress::Fail(error) => Progress::Fail(error),
        Progress::Ready(GoalTransitionResult::Applied, next) => show(
            kind,
            read_task_state(ingress, task_id, replies, next),
        ),
        Progress::Ready(_, next) => Progress::Ready(GoalResponse::Stale, next),
    }
}

fn answering(answer: Progress<GoalResponse>) -> (r: Progress<(GoalResponse, Option<GoalPausedRequest>)>)
    ensures
        answer_view(r) == without_request(response_view(answer)),
{
    match answer {
        Progress::Ask(request) => Progress::Ask(request),
        Progress::Fail(error) => Progress::Fail(error),
        Progress::Ready(response, next) => Progress::Ready((response, None), next),
    }
}

impl GoalController {
    pub fn new() -> (r: GoalController)
        ensures
            r == GoalController,
    {
        GoalController
    }

    /// Starts a goal.
    pub fn start(
        &self,
        settings: &GoalHostSettings,
        ingress: &GoalIngressContext,
        selection: GoalBudgetSelection,
        objective: &String,
        objective_refusal: &Option<String>,
        ticket: &GoalTicket,
        replies: &Vec<RegistryReply>,
    ) -> (r: Progress<GoalResponse>)
        ensures
            response_view(r) == start(
                *settings,
                *ingress,
                selection,
                *objective,
                *objective_refusal,
                *ticket,
                replies@,
            ),
    {
        match objective_refusal {
            Some(refusal) => {
                return Progress::Fail(GoalError::new(Text::Plain(refusal.clone())));
            },
            None => {},
        }
        let limits = match select_limits(settings.default_limits(), selection) {
            Err(error) => {
                return Progress::Fail(error);
            },
            Ok(limits) => limits,
        };
        let (agent, route) = ingress.task_origin();
        let (owner_pid, owner_boot_id) = settings.owner();
        let task = TaskRecord {
            id: ticket.task_id.clone(),
            kind: TaskKind::Goal,
            agent,
            status: TaskStatus::Running,
            owner_pid,
            owner_boot_id,
            heartbeat_at: None,
            depth: 0,
            parent_id: None,
            originator_route: Some(route),
            delivered: false,
            idem_key: None,
            principal_id: ingress.durable_principal_id(),
            session_id: None,
            execution_epoch: 1,
            started_at: ticket.started_at.clone(),
            finished_at: None,
        };
        let goal = NewSessionGoal {
            session: ingress.session_key().copy(),
            task,
            objective: objective.clone(),
            limits,
        };
        match read_transition(RegistryRequest::Create(goal), replies, 0) {
            Progress::Ask(request) => Progress::Ask(request),
            Progress::Fail(error) => Progress::Fail(error),
            Progress::Ready(GoalTransitionResult::Applied, next) => show(
                Shown::Started,
                read_task_state(ingress, ticket.task_id.as_str(), replies, next),
            ),
            Progress::Ready(GoalTransitionResult::Stale, next) => self.start_stale_response(ingress, replies, next),
            Progress::Ready(GoalTransitionResult::Missing, next) => Progress::Ready(GoalResponse::Stale, next),
        }
    }

    fn start_stale_response(&self, ingress: &GoalIngressContext, replies: &Vec<RegistryReply>, from: usize) -> (r:
        Progress<GoalResponse>)
        ensures
            response_view(r) == start_refused(*ingress, replies@, from),
    {
        match read_occupant(ingress, replies, from) {
            Progress::Ask(request) => Progress::Ask(request),
            Progress::Fail(error) => Progress::Fail(error),
            Progress::Ready(None, next) => Progress::Ready(GoalResponse::Stale, next),
            Progress::Ready(Some(task), next) => if !ingress_owns_task(ingress, &task) {
                Progress::Ready(GoalResponse::NoCurrentGoal, next)
            } else if !task.status.is_terminal() {
                Progress::Ready(GoalResponse::AlreadyActive, next)
            } else {
                show(Shown::Terminal, read_state(ingress, &task, replies, next))
            },
        }
    }

    /// Shows the goal of the session, or its budget.
    pub fn status(&self, ingress: &GoalIngressContext, budget: bool, replies: &Vec<RegistryReply>) -> (r: Progress<
        GoalResponse,
    >)
        ensures
            response_view(r) == status(*ingress, budget, replies@),
    {
        match read_current(ingress, replies, 0) {
            Progress::Ask(request) => Progress::Ask(request),
            Progress::Fail(error) => Progress::Fail(error),
            Progress::Ready(None, next) => Progress::Ready(GoalResponse::NoCurrentGoal, next),
            Progress::Ready(Some(task), next) => {
                let kind = if task.status.is_terminal() {
                    Shown::Terminal
                } else if budget {
                    Shown::Budget
                } else {
                    Shown::Status
                };
                show(kind, read_state(ingress, &task, replies, next))
            },
        }
    }

    /// Changes the limits of the goal of the session.
    pub fn set_budget(
        &self,
        ingress: &GoalIngressContext,
        selection: GoalBudgetSelection,
        replies: &Vec<RegistryReply>,
    ) -> (r: Progress<GoalResponse>)
        ensures
            response_view(r) == set_budget(*ingress, selection, replies@),
    {
        match read_current(ingress, replies, 0) {
            Progress::Ask(request) => Progress::Ask(request),
            Progress::Fail(error) => Progress::Fail(error),
            Progress::Ready(None, next) => Progress::Ready(GoalResponse::NoCurrentGoal, next),
            Progress::Ready(Some(task), next) => {
                if task.status.is_terminal() {
                    return show(Shown::Terminal, read_state(ingress, &task, replies, next));
                }
                let limits = match select_budget_update_limits(selection) {
                    Err(error) => {
                        return Progress::Fail(error);
                    },
                    Ok(limits) => limits,
                };
                let request = RegistryRequest::UpdateLimits {
                    task_id: task.id.clone(),
                    session: ingress.session_key().copy(),
                    epoch: task.execution_epoch,
                    limits,
                };
                let outcome = read_transition(request, replies, next);
                show_applied(ingress, Shown::BudgetUpdated, task.id.as_str(), outcome, replies)
            },
        }
    }

    /// Pauses the goal of the session.
    pub fn pause(&self, ingress: &GoalIngressContext, replies: &Vec<RegistryReply>) -> (r: Progress<GoalResponse>)
        ensures
            response_view(r) == pause(*ingress, replies@),
    {
        match read_current(ingress, replies, 0) {
            Progress::Ask(request) => Progress::Ask(request),
            Progress::Fail(error) => Progress::Fail(error),
            Progress::Ready(None, next) => Progress::Ready(GoalResponse::NoCurrentGoal, next),
            Progress::Ready(Some(task), next) => {
                if task.status == TaskStatus::Paused {
                    return show(Shown::AlreadyPaused, read_state(ingress, &task, replies, next));
                }
                if task.status.is_terminal() {
                    return show(Shown::Terminal, read_state(ingress, &task, replies, next));
                }
                let request = RegistryRequest::Pause {
                    task_id: task.id.clone(),
                    session: ingress.session_key().copy(),
                    epoch: task.execution_epoch,
                    pause: BarePause { reason: GoalPauseReason::OperatorPaused, description: None },
                };
                let outcome = read_transition(request, replies, next);
                show_applied(ingress, Shown::Paused, task.id.as_str(), outcome, replies)
            },
        }
    }

    /// Resumes the goal of the session, and replays what the agent had asked
    /// for.
    pub fn resume_with_context(
        &self,
        settings: &GoalHostSettings,
        ingress: &GoalIngressContext,
        has_response: bool,
        replies: &Vec<RegistryReply>,
    ) -> (r: Progress<(GoalResponse, Option<GoalPausedRequest>)>)
        ensures
            answer_view(r) == resume(*settings, *ingress, has_response, replies@),
    {
        let (task, next) = match read_current(ingress, replies, 0) {
            Progress::Ask(request) => {
                return Progress::Ask(request);
            },
            Progress::Fail(error) => {
                return Progress::Fail(error);
            },
            Progress::Ready(None, next) => {
                return Progress::Ready((GoalResponse::NoCurrentGoal, None), next);
            },
            Progress::Ready(Some(task), next) => (task, next),
        };
        if task.status.is_terminal() {
            return answering(show(Shown::Terminal, read_state(ingress, &task, replies, next)));
        }
        if task.status != TaskStatus::Paused {
            if has_response {
                return Progress::Ready((GoalResponse::ResponseRequiresPause, None), next);
            } else {
                return Progress::Ready((GoalResponse::AlreadyActive, None), next);
            }
        }
        if next >= replies.len() {
            return Progress::Ask(RegistryRequest::Extension { task_id: task.id.clone() });
        }
        let paused_request = match &replies[next] {
            RegistryReply::Extension(Some(goal)) => GoalPausedRequest::from_goal(goal),
            RegistryReply::Extension(None) => None,
            RegistryReply::Failed(error) => {
                return Progress::Fail(error.copy());
            },
            _ => {
                return Progress::Fail(unexpected());
            },
        };
        let (owner_pid, owner_boot_id) = settings.owner();
        let request = RegistryRequest::Resume {
            task_id: task.id.clone(),
            session: ingress.session_key().copy(),
            epoch: task.execution_epoch,
            owner_pid,
            owner_boot_id,
        };
        match read_transition(request, replies, next + 1) {
            Progress::Ask(request) => Progress::Ask(request),
            Progress::Fail(error) => Progress::Fail(error),
            Progress::Ready(GoalTransitionResult::Applied, next) => {
                match show(Shown::Resumed, read_task_state(ingress, task.id.as_str(), replies, next)) {
                    Progress::Ask(request) => Progress::Ask(request),
                    Progress::Fail(error) => Progress::Fail(error),
                    Progress::Ready(response, next) => Progress::Ready((response, paused_request), next),
                }
            },
            Progress::Ready(GoalTransitionResult::Stale, next) => answering(
                self.resume_stale_response(ingress, replies, next),
            ),
            Progress::Ready(GoalTransitionResult::Missing, next) => Progress::Ready((GoalResponse::Stale, None), next),
        }
    }

    fn resume_stale_response(&self, ingress: &GoalIngressContext, replies: &Vec<RegistryReply>, from: usize) -> (r:
        Progress<GoalResponse>)
        ensures
            response_view(r) == resume_refused(*ingress, replies@, from),
    {
        match read_current(ingress, replies, from) {
            Progress::Ask(request) => Progress::Ask(request),
            Progress::Fail(error) => Progress::Fail(error),
            Progress::Ready(None, next) => Progress::Ready(GoalResponse::Stale, next),
            Progress::Ready(Some(task), next) => {
                let kind = if task.status.is_terminal() { Shown::Terminal } else { Shown::Status };
                show(kind, read_state(ingress, &task, replies, next))
            },
        }
    }

    /// Cancels the goal of the session.
    pub fn cancel(&self, ingress: &GoalIngressContext, replies: &Vec<RegistryReply>) -> (r: Progress<GoalResponse>)
        ensures
            response_view(r) == cancel(*ingress, replies@),
    {
        match read_current(ingress, replies, 0) {
            Progress::Ask(request) => Progress::Ask(request),
            Progress::Fail(error) => Progress::Fail(error),
            Progress::Ready(None, next) => Progress::Ready(GoalResponse::NoCurrentGoal, next),
            Progress::Ready(Some(task), next) => {
                if task.status == TaskStatus::Cancelled {
                    return show(Shown::AlreadyCancelled, read_state(ingress, &task, replies, next));
                }
                if task.status.is_terminal() {
                    return show(Shown::Terminal, read_state(ingress, &task, replies, next));
                }
                let request = RegistryRequest::Finish {
                    task_id: task.id.clone(),
                    session: ingress.session_key().copy(),
                    epoch: task.execution_epoch,
                    status: TaskStatus::Cancelled,
                    reason: None,
                };
                let outcome = read_transition(request, replies, next);
                show_applied(ingress, Shown::Cancelled, task.id.as_str(), outcome, replies)
            },
        }
    }

    /// The next step of a command, given the replies so far.
    pub fn submit_with_resume_context(
        &self,
        settings: &GoalHostSettings,
        submission: &AdmittedCommand,
        ticket: &GoalTicket,
        replies: &Vec<RegistryReply>,
    ) -> (r: Progress<(GoalResponse, Option<GoalPausedRequest>)>)
        ensures
            answer_view(r) == answer(*settings, *submission, *ticket, replies@),
    {
        let help = match &submission.command {
            SessionGoalCommand::Help => true,
            _ => false,
        };
        if help {
            return Progress::Ready((GoalResponse::Help, None), 0);
        }
        if !submission.admitted || !settings.is_enabled() {
            return Progress::Ready((GoalResponse::Disabled, None), 0);
        }
        let ingress = &submission.ingress;
        match &submission.command {
            SessionGoalCommand::Start { budget, objective } => answering(
                self.start(settings, ingress, *budget, objective, &submission.objective_refusal, ticket, replies),
            ),
            SessionGoalCommand::Status => answering(self.status(ingress, false, replies)),
            SessionGoalCommand::Budget => answering(self.status(ingress, true, replies)),
            SessionGoalCommand::SetBudget(selection) => answering(self.set_budget(ingress, *selection, replies)),
            SessionGoalCommand::Pause => answering(self.pause(ingress, replies)),
            SessionGoalCommand::PauseNow => answering(self.pause(ingress, replies)),
            SessionGoalCommand::Resume { response } => self.resume_with_context(
                settings,
                ingress,
                response.is_some(),
                replies,
            ),
            SessionGoalCommand::Cancel => answering(self.cancel(ingress, replies)),
            SessionGoalCommand::Help => Progress::Ready((GoalResponse::Help, None), 0),
        }
    }

    /// The next step of a command, without what a resume replays.
    pub fn submit(
        &self,
        settings: &GoalHostSettings,
        submission: &AdmittedCommand,
        ticket: &GoalTicket,
        replies: &Vec<RegistryReply>,
    ) -> (r: Progress<GoalResponse>)
        ensures
            response_view(r) == only_response(answer(*settings, *submission, *ticket, replies@)),
    {
        match self.submit_with_resume_context(settings, submission, ticket, replies) {
            Progress::Ask(request) => Progress::Ask(request),
            Progress::Fail(error) => Progress::Fail(error),
            Progress::Ready((response, _), next) => Progress::Ready(response, next),
        }
    }
}

pub open spec fn only_response(answer: Progress<Answer>) -> Progress<ResponseView> {
    match answer {
        Progress::Ask(request) => Progress::Ask(request),
        Progress::Fail(error) => Progress::Fail(error),
        Progress::Ready((response, _), next) => Progress::Ready(response, next),
    }
}

} // verus!
