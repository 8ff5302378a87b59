//! What each command of a session asks for and answers.
use vstd::prelude::*;
#[allow(unused_imports)]
use vstd::string::*;

use super::controller::{
    answer, cancel, current, new_session_goal, occupant, pause, project_current, project_task, resume, set_budget,
    start, status, Answer, AdmittedCommand, BarePause, GoalTicket, Progress, RegistryReply, RegistryRequest,
};
use super::session::{owns_task, GoalIngressContext, GoalIngressPrincipal, GoalSurface};
use super::settings::{selected_limits, updated_limits, GoalBudgetLimits, GoalBudgetSelection, GoalHostSettings, SessionGoalCommand};
use super::status::{projection, with_reason, DurableReason, Plain, ProjectionView, ResponseView, Shown};
use crate::error::GoalError;
use crate::goal_task::{
    GoalAccountingState, GoalBlocker, GoalBlockerKind, GoalPauseReason, GoalTaskRecord, GoalTaskView,
    GoalTransitionResult,
};
use crate::message::{spelled_out, Text};
use crate::task::{TaskKind, TaskRecord, TaskStatus};
use crate::text::trimmed;

verus! {

/// Without a reply at a position, a request is made of the registry.
pub open spec fn wants<T>(step: Progress<T>, replies: Seq<RegistryReply>, at: int, request: RegistryRequest) -> bool {
    replies.len() == at ==> step == Progress::<T>::Ask(request)
}

/// The reply to a transition at a position.
pub open spec fn outcome(replies: Seq<RegistryReply>, at: int, result: GoalTransitionResult) -> bool {
    0 <= at < replies.len() && replies[at] == RegistryReply::Transition(result)
}

/// What is answered once a state is known: the state, under a heading, or that
/// it is stale where there is none.
pub open spec fn headed(heading: Shown, state: Progress<Option<ProjectionView>>) -> Progress<ResponseView> {
    match state {
        Progress::Ask(request) => Progress::Ask(request),
        Progress::Fail(error) => Progress::Fail(error),
        Progress::Ready(Some(shown), next) => Progress::Ready(ResponseView::Shown(heading, shown), next),
        Progress::Ready(None, next) => Progress::Ready(ResponseView::Plain(Plain::Stale), next),
    }
}

/// A short answer.
pub open spec fn short(answer: Plain, next: int) -> Progress<ResponseView> {
    Progress::Ready(ResponseView::Plain(answer), next as usize)
}

/// A goal that has ended.
pub open spec fn finished_goal(task: TaskRecord) -> bool {
    task.status != TaskStatus::Running && task.status != TaskStatus::Paused
}

/// The registry gave a goal of the speaker as the goal of the session.
pub open spec fn found(ingress: GoalIngressContext, replies: Seq<RegistryReply>, task: TaskRecord) -> bool {
    &&& 0 < replies.len() <= usize::MAX
    &&& replies[0] == RegistryReply::Task(Some(task))
    &&& owns_task(ingress, task.principal_id)
}

/// Whoever is in a ZeroCode session owns its goal; in a Matrix session only the
/// user who started it does.
pub proof fn law_who_owns_a_session_goal(ingress: GoalIngressContext, principal: Option<String>)
    ensures
        ingress.key().on() == GoalSurface::ZeroCode ==> owns_task(ingress, principal),
        ingress.key().on() == GoalSurface::Matrix ==> owns_task(ingress, principal) == (match (
            principal,
            ingress.speaker(),
        ) {
            (Some(owner), GoalIngressPrincipal::Matrix { raw_mxid }) => owner@ == raw_mxid@,
            (None, GoalIngressPrincipal::ZeroCode { .. }) => true,
            _ => false,
        }),
{
}

/// A session is asked for its goal; to a speaker who does not own it the
/// session has none.
pub proof fn law_session_goal_is_looked_up(ingress: GoalIngressContext, replies: Seq<RegistryReply>, from: usize)
    requires
        from <= replies.len() <= usize::MAX,
    ensures
        ({
            let seen = current(ingress, replies, from);
            let there = occupant(ingress, replies, from);
            let next = (from + 1) as usize;
            &&& wants(seen, replies, from as int, RegistryRequest::CurrentGoal { session: ingress.key() })
            &&& wants(there, replies, from as int, RegistryRequest::CurrentGoal { session: ingress.key() })
            &&& replies.len() > from ==> match replies[from as int] {
                RegistryReply::Task(task) => {
                    &&& there == Progress::Ready(task, next)
                    &&& seen == Progress::Ready(
                        if task is Some && owns_task(ingress, task->Some_0.principal_id) {
                            task
                        } else {
                            None
                        },
                        next,
                    )
                },
                RegistryReply::Failed(error) => there == Progress::<Option<TaskRecord>>::Fail(error) && seen
                    == Progress::<Option<TaskRecord>>::Fail(error),
                _ => there is Fail && seen is Fail,
            }
        }),
{
}

/// The state of a goal is its task, its extension and, once it has ended, the
/// reason that was stored; an active goal without its extension is an error
/// unless it has been replaced.
#[verifier::spinoff_prover]
pub proof fn law_state_is_read(
    ingress: GoalIngressContext,
    task: TaskRecord,
    replies: Seq<RegistryReply>,
    from: usize,
    goal: GoalTaskRecord,
    reason: Option<DurableReason>,
)
    requires
        from <= replies.len() <= usize::MAX,
    ensures
        ({
            let state = project_current(ingress, task, replies, from);
            &&& wants(state, replies, from as int, RegistryRequest::Extension { task_id: task.id })
            &&& replies.len() > from && replies[from as int] == RegistryReply::Extension(Some(goal)) ==> if finished_goal(
                task,
            ) {
                &&& wants(
                    state,
                    replies,
                    from + 1,
                    RegistryRequest::TerminalReason { task_id: task.id, session: ingress.key() },
                )
                &&& replies.len() > from + 1 && replies[from + 1] == RegistryReply::Reason(reason) ==> state
                    == Progress::Ready(Some(with_reason(projection(task, goal@), reason)), (from + 2) as usize)
            } else {
                state == Progress::Ready(Some(projection(task, goal@)), (from + 1) as usize)
            }
            &&& replies.len() > from && replies[from as int] == RegistryReply::Extension(None) ==> match current(
                ingress,
                replies,
                (from + 1) as usize,
            ) {
                Progress::Ask(request) => state == Progress::<Option<ProjectionView>>::Ask(request),
                Progress::Fail(error) => state == Progress::<Option<ProjectionView>>::Fail(error),
                Progress::Ready(Some(now), next) => if now.id@ == task.id@ {
                    state is Fail
                } else {
                    state == Progress::Ready(None::<ProjectionView>, next)
                },
                Progress::Ready(None, next) => state == Progress::Ready(None::<ProjectionView>, next),
            }
        }),
{
}

/// After a change the goal is read anew: it is shown if it is still the goal of
/// the session and of the speaker.
pub proof fn law_state_is_read_anew(
    ingress: GoalIngressContext,
    task_id: Seq<char>,
    replies: Seq<RegistryReply>,
    from: usize,
)
    ensures
        match current(ingress, replies, from) {
            Progress::Ask(request) => project_task(ingress, task_id, replies, from) == Progress::<
                Option<ProjectionView>,
            >::Ask(request),
            Progress::Fail(error) => project_task(ingress, task_id, replies, from) == Progress::<
                Option<ProjectionView>,
            >::Fail(error),
            Progress::Ready(None, next) => project_task(ingress, task_id, replies, from) == Progress::Ready(
                None::<ProjectionView>,
                next,
            ),
            Progress::Ready(Some(task), next) => if task.id@ == task_id {
                project_task(ingress, task_id, replies, from) == project_current(ingress, task, replies, next)
            } else {
                project_task(ingress, task_id, replies, from) == Progress::Ready(None::<ProjectionView>, next)
            },
        },
{
}

/// A goal is shown as it is stored; it is resumable if it is paused, an epoch
/// is left, nothing is outstanding and all usage is known.
pub proof fn law_goal_is_shown_as_it_is(task: TaskRecord, goal: GoalTaskView, i: int)
    ensures
        ({
            let shown = projection(task, goal);
            &&& shown.task_id == task.id
            &&& shown.status == task.status
            &&& shown.execution_epoch == task.execution_epoch
            &&& shown.token_limit == goal.effective_token_limit
            &&& shown.cost_limit_usd == goal.effective_cost_limit_usd
            &&& shown.accounting_state == goal.accounting_state
            &&& shown.pause_reason == goal.pause_reason
            &&& shown.pause_description == goal.pause_description
            &&& shown.terminal_reason is None
            &&& shown.terminal_provider is None
            &&& shown.terminal_detail is None
            &&& shown.blocker_messages.len() == goal.blockers.len()
            &&& 0 <= i < goal.blockers.len() ==> shown.blocker_messages[i] == goal.blockers[i].message
            &&& shown.resumable == (task.status == TaskStatus::Paused && task.execution_epoch != i64::MAX
                && goal.accounting_state == GoalAccountingState::Complete && goal.pending_call_id is None
                && goal.pending_call_epoch is None && goal.pending_tool_batch_id is None && goal.pending_tool_epoch
                is None)
        }),
{
}

/// A stored reason is shown over what was shown before, and nothing else of the
/// state changes; without one nothing does.
pub proof fn law_reason_is_shown(shown: ProjectionView, reason: DurableReason)
    ensures
        with_reason(shown, None) == shown,
        ({
            let after = with_reason(shown, Some(reason));
            after == (ProjectionView {
                terminal_reason: after.terminal_reason,
                terminal_provider: after.terminal_provider,
                terminal_detail: after.terminal_detail,
                ..shown
            }) && after.terminal_reason == Some(
                super::terminal::reason_of_code(super::terminal::reason_code(reason.record@)),
            ) && after.terminal_provider == super::terminal::shown_provider(reason.record@) && after.terminal_detail
                == super::terminal::shown_detail(reason.record@, reason.sanitized_detail@)
        }),
{
}

// ---------------------------------------------------------------- commands
/// The goal that a start creates is the speaker's: in the speaker's session,
/// under the addressed agent, by the speaker's route and, on Matrix, for the
/// speaker; owned by this process, running at its first epoch.
pub proof fn law_new_goal_is_the_speakers(
    settings: GoalHostSettings,
    ingress: GoalIngressContext,
    objective: String,
    limits: GoalBudgetLimits,
    ticket: GoalTicket,
)
    ensures
        ({
            let goal = new_session_goal(settings, ingress, objective, limits, ticket);
            &&& goal.session == ingress.key()
            &&& goal.objective == objective
            &&& goal.limits == limits
            &&& goal.task.id == ticket.task_id
            &&& goal.task.started_at == ticket.started_at
            &&& goal.task.kind == TaskKind::Goal
            &&& goal.task.status == TaskStatus::Running
            &&& goal.task.agent == ingress.addressed()
            &&& goal.task.originator_route == Some(ingress.came_by())
            &&& goal.task.principal_id == match ingress.speaker() {
                GoalIngressPrincipal::Matrix { raw_mxid } => Some(raw_mxid),
                GoalIngressPrincipal::ZeroCode { .. } => None,
            }
            &&& goal.task.owner_pid == settings.pid()
            &&& goal.task.owner_boot_id == settings.boot()
            &&& goal.task.execution_epoch == 1
            &&& goal.task.finished_at is None
            &&& goal.task.heartbeat_at is None
            &&& goal.task.parent_id is None
            &&& goal.task.idem_key is None
            &&& goal.task.depth == 0
            &&& !goal.task.delivered
            &&& goal.extension().task_id == ticket.task_id
            &&& goal.extension().objective == objective
            &&& goal.extension().effective_token_limit == limits.token_limit
            &&& goal.extension().effective_cost_limit_usd == limits.cost_limit_usd
            &&& goal.extension().pause_reason is None
            &&& goal.extension().pause_description is None
            &&& goal.extension().blockers.len() == 0
            &&& goal.extension().pending_call_id is None
            &&& goal.extension().pending_call_epoch is None
            &&& goal.extension().pending_tool_batch_id is None
            &&& goal.extension().pending_tool_epoch is None
            &&& goal.extension().accounting_state == GoalAccountingState::Complete
        }),
{
}

/// A start creates the goal with its objective and the limits that were
/// selected, and shows it as started only once it was created. In a session
/// that is taken nothing is created: its owner is told that a goal is active,
/// or is shown how it ended, and anyone else is told that there is none.
#[verifier::spinoff_prover]
pub proof fn law_what_a_start_answers(
    settings: GoalHostSettings,
    ingress: GoalIngressContext,
    selection: GoalBudgetSelection,
    objective: String,
    refusal: Option<String>,
    ticket: GoalTicket,
    replies: Seq<RegistryReply>,
)
    requires
        replies.len() <= usize::MAX,
    ensures
        ({
            let step = start(settings, ingress, selection, objective, refusal, ticket, replies);
            match refusal {
                Some(words) => step == Progress::<ResponseView>::Fail(
                    GoalError { text: Text::Plain(words), cause: None },
                ),
                None => match selected_limits(settings.defaults(), selection) {
                    Err(error) => step == Progress::<ResponseView>::Fail(error),
                    Ok(limits) => {
                        &&& wants(
                            step,
                            replies,
                            0,
                            RegistryRequest::Create(new_session_goal(settings, ingress, objective, limits, ticket)),
                        )
                        &&& outcome(replies, 0, GoalTransitionResult::Applied) ==> step == headed(
                            Shown::Started,
                            project_task(ingress, ticket.task_id@, replies, 1),
                        )
                        &&& outcome(replies, 0, GoalTransitionResult::Missing) ==> step == short(Plain::Stale, 1)
                        &&& outcome(replies, 0, GoalTransitionResult::Stale) ==> match occupant(ingress, replies, 1) {
                            Progress::Ask(request) => step == Progress::<ResponseView>::Ask(request),
                            Progress::Fail(error) => step == Progress::<ResponseView>::Fail(error),
                            Progress::Ready(None, next) => step == short(Plain::Stale, next as int),
                            Progress::Ready(Some(task), next) => if !owns_task(ingress, task.principal_id) {
                                step == short(Plain::NoCurrentGoal, next as int)
                            } else if finished_goal(task) {
                                step == headed(Shown::Terminal, project_current(ingress, task, replies, next))
                            } else {
                                step == short(Plain::AlreadyActive, next as int)
                            },
                        }
                        &&& replies.len() > 0 && !(replies[0] is Transition) ==> step is Fail
                    },
                },
            }
        }),
{
}

/// In a session without a goal of the speaker every command but a start is
/// answered so, and nothing is asked for.
pub proof fn law_no_goal_no_change(
    settings: GoalHostSettings,
    ingress: GoalIngressContext,
    selection: GoalBudgetSelection,
    flag: bool,
    replies: Seq<RegistryReply>,
)
    requires
        0 < replies.len() <= usize::MAX,
        replies[0] matches RegistryReply::Task(task) && (task is None || !owns_task(
            ingress,
            task->Some_0.principal_id,
        )),
    ensures
        status(ingress, flag, replies) == short(Plain::NoCurrentGoal, 1),
        set_budget(ingress, selection, replies) == short(Plain::NoCurrentGoal, 1),
        pause(ingress, replies) == short(Plain::NoCurrentGoal, 1),
        cancel(ingress, replies) == short(Plain::NoCurrentGoal, 1),
        resume(settings, ingress, flag, replies) == Progress::<Answer>::Ready(
            (ResponseView::Plain(Plain::NoCurrentGoal), None),
            1,
        ),
{
}

/// A goal is shown under its status, under its budget where that was asked for,
/// and as ended once it has.
pub proof fn law_what_a_status_answers(
    ingress: GoalIngressContext,
    budget: bool,
    replies: Seq<RegistryReply>,
    task: TaskRecord,
)
    requires
        found(ingress, replies, task),
    ensures
        status(ingress, budget, replies) == headed(
            if finished_goal(task) {
                Shown::Terminal
            } else if budget {
                Shown::Budget
            } else {
                Shown::Status
            },
            project_current(ingress, task, replies, 1),
        ),
{
}

/// New limits are asked for at the epoch that the goal was read at. They are
/// shown as updated only once they were.
#[verifier::spinoff_prover]
pub proof fn law_what_a_budget_answers(
    ingress: GoalIngressContext,
    selection: GoalBudgetSelection,
    replies: Seq<RegistryReply>,
    task: TaskRecord,
)
    requires
        found(ingress, replies, task),
    ensures
        ({
            let step = set_budget(ingress, selection, replies);
            if finished_goal(task) {
                step == headed(Shown::Terminal, project_current(ingress, task, replies, 1))
            } else {
                match updated_limits(selection) {
                    Err(error) => step == Progress::<ResponseView>::Fail(error),
                    Ok(limits) => {
                        &&& wants(
                            step,
                            replies,
                            1,
                            RegistryRequest::UpdateLimits {
                                task_id: task.id,
                                session: ingress.key(),
                                epoch: task.execution_epoch,
                                limits,
                            },
                        )
                        &&& outcome(replies, 1, GoalTransitionResult::Applied) ==> step == headed(
                            Shown::BudgetUpdated,
                            project_task(ingress, task.id@, replies, 2),
                        )
                        &&& outcome(replies, 1, GoalTransitionResult::Stale) || outcome(
                            replies,
                            1,
                            GoalTransitionResult::Missing,
                        ) ==> step == short(Plain::Stale, 2)
                    },
                }
            }
        }),
{
}

/// A running goal is paused on the operator's behalf at the epoch that it was
/// read at, and shown as paused only once it was. A paused goal is shown as
/// paused already, and an ended one as ended.
#[verifier::spinoff_prover]
pub proof fn law_what_a_pause_answers(ingress: GoalIngressContext, replies: Seq<RegistryReply>, task: TaskRecord)
    requires
        found(ingress, replies, task),
    ensures
        ({
            let step = pause(ingress, replies);
            match task.status {
                TaskStatus::Paused => step == headed(
                    Shown::AlreadyPaused,
                    project_current(ingress, task, replies, 1),
                ),
                TaskStatus::Running => {
                    &&& wants(
                        step,
                        replies,
                        1,
                        RegistryRequest::Pause {
                            task_id: task.id,
                            session: ingress.key(),
                            epoch: task.execution_epoch,
                            pause: BarePause { reason: GoalPauseReason::OperatorPaused, description: None },
                        },
                    )
                    &&& outcome(replies, 1, GoalTransitionResult::Applied) ==> step == headed(
                        Shown::Paused,
                        project_task(ingress, task.id@, replies, 2),
                    )
                    &&& outcome(replies, 1, GoalTransitionResult::Stale) || outcome(
                        replies,
                        1,
                        GoalTransitionResult::Missing,
                    ) ==> step == short(Plain::Stale, 2)
                },
                _ => step == headed(Shown::Terminal, project_current(ingress, task, replies, 1)),
            }
        }),
{
}

/// A running or paused goal is cancelled without a reason at the epoch that it
/// was read at, and shown as cancelled only once it was.
#[verifier::spinoff_prover]
pub proof fn law_what_a_cancel_answers(ingress: GoalIngressContext, replies: Seq<RegistryReply>, task: TaskRecord)
    requires
        found(ingress, replies, task),
    ensures
        ({
            let step = cancel(ingress, replies);
            if task.status == TaskStatus::Cancelled {
                step == headed(Shown::AlreadyCancelled, project_current(ingress, task, replies, 1))
            } else if finished_goal(task) {
                step == headed(Shown::Terminal, project_current(ingress, task, replies, 1))
            } else {
                &&& wants(
                    step,
                    replies,
                    1,
                    RegistryRequest::Finish {
                        task_id: task.id,
                        session: ingress.key(),
                        epoch: task.execution_epoch,
                        status: TaskStatus::Cancelled,
                        reason: None,
                    },
                )
                &&& outcome(replies, 1, GoalTransitionResult::Applied) ==> step == headed(
                    Shown::Cancelled,
                    project_task(ingress, task.id@, replies, 2),
                )
                &&& outcome(replies, 1, GoalTransitionResult::Stale) || outcome(
                    replies,
                    1,
                    GoalTransitionResult::Missing,
                ) ==> step == short(Plain::Stale, 2)
            }
        }),
{
}

/// With an answer to a command nothing is replayed.
pub open spec fn alone(answer: Progress<ResponseView>) -> Progress<Answer> {
    match answer {
        Progress::Ask(request) => Progress::Ask(request),
        Progress::Fail(error) => Progress::Fail(error),
        Progress::Ready(response, next) => Progress::Ready((response, None), next),
    }
}

/// A paused goal is resumed under this owner at the epoch that it was read at.
/// It is shown as resumed only once it was, and what the agent had asked for
/// comes with it. A goal that runs stays as it is, and an ended one is shown.
#[verifier::spinoff_prover]
pub proof fn law_what_a_resume_answers(
    settings: GoalHostSettings,
    ingress: GoalIngressContext,
    has_response: bool,
    replies: Seq<RegistryReply>,
    task: TaskRecord,
    goal: GoalTaskRecord,
)
    requires
        found(ingress, replies, task),
    ensures
        ({
            let step = resume(settings, ingress, has_response, replies);
            match task.status {
                TaskStatus::Running => step == alone(
                    short(
                        if has_response {
                            Plain::ResponseRequiresPause
                        } else {
                            Plain::AlreadyActive
                        },
                        1,
                    ),
                ),
                TaskStatus::Paused => {
                    &&& wants(step, replies, 1, RegistryRequest::Extension { task_id: task.id })
                    &&& replies.len() > 1 && replies[1] == RegistryReply::Extension(Some(goal)) ==> {
                        &&& wants(
                            step,
                            replies,
                            2,
                            RegistryRequest::Resume {
                                task_id: task.id,
                                session: ingress.key(),
                                epoch: task.execution_epoch,
                                owner_pid: settings.pid(),
                                owner_boot_id: settings.boot(),
                            },
                        )
                        &&& outcome(replies, 2, GoalTransitionResult::Applied) ==> match headed(
                            Shown::Resumed,
                            project_task(ingress, task.id@, replies, 3),
                        ) {
                            Progress::Ask(request) => step == Progress::<Answer>::Ask(request),
                            Progress::Fail(error) => step == Progress::<Answer>::Fail(error),
                            Progress::Ready(response, next) => step == Progress::<Answer>::Ready(
                                (response, super::prompt::paused_request_of(goal.blockers@)),
                                next,
                            ),
                        }
                        &&& outcome(replies, 2, GoalTransitionResult::Missing) ==> step == alone(
                            short(Plain::Stale, 3),
                        )
                        &&& outcome(replies, 2, GoalTransitionResult::Stale) ==> match current(ingress, replies, 3) {
                            Progress::Ask(request) => step == Progress::<Answer>::Ask(request),
                            Progress::Fail(error) => step == Progress::<Answer>::Fail(error),
                            Progress::Ready(None, next) => step == alone(short(Plain::Stale, next as int)),
                            Progress::Ready(Some(now), next) => step == alone(
                                headed(
                                    if finished_goal(now) {
                                        Shown::Terminal
                                    } else {
                                        Shown::Status
                                    },
                                    project_current(ingress, now, replies, next),
                                ),
                            ),
                        }
                    }
                },
                _ => step == alone(headed(Shown::Terminal, project_current(ingress, task, replies, 1))),
            }
        }),
{
}

/// Each command is answered as its name says. Help is always answered, and
/// everything else only where goals are enabled and the session admitted it.
pub proof fn law_commands_are_answered_by_name(
    settings: GoalHostSettings,
    submission: AdmittedCommand,
    ticket: GoalTicket,
    replies: Seq<RegistryReply>,
)
    ensures
        ({
            let step = answer(settings, submission, ticket, replies);
            let ingress = submission.ingress;
            match submission.command {
                SessionGoalCommand::Help => step == alone(short(Plain::Help, 0)),
                command => if !submission.admitted || !settings.on() {
                    step == alone(short(Plain::Disabled, 0))
                } else {
                    match command {
                        SessionGoalCommand::Start { budget, objective } => step == alone(
                            start(
                                settings,
                                ingress,
                                budget,
                                objective,
                                submission.objective_refusal,
                                ticket,
                                replies,
                            ),
                        ),
                        SessionGoalCommand::Status => step == alone(status(ingress, false, replies)),
                        SessionGoalCommand::Budget => step == alone(status(ingress, true, replies)),
                        SessionGoalCommand::SetBudget(selection) => step == alone(
                            set_budget(ingress, selection, replies),
                        ),
                        SessionGoalCommand::Pause => step == alone(pause(ingress, replies)),
                        SessionGoalCommand::PauseNow => step == alone(pause(ingress, replies)),
                        SessionGoalCommand::Resume { response } => step == resume(
                            settings,
                            ingress,
                            response is Some,
                            replies,
                        ),
                        SessionGoalCommand::Cancel => step == alone(cancel(ingress, replies)),
                        SessionGoalCommand::Help => true,
                    }
                },
            }
        }),
{
}

// ---------------------------------------------------------------- limits
pub open spec fn has_a_limit(limits: GoalBudgetLimits) -> bool {
    limits.token_limit is Some || limits.cost_limit_usd is Some
}

/// Each limit that there is can be reached: a positive number of tokens that
/// the store can hold, a positive amount that is finite.
pub open spec fn sensible(limits: GoalBudgetLimits) -> bool {
    &&& limits.token_limit is Some ==> 1 <= limits.token_limit->Some_0 <= 0x7fff_ffff_ffff_ffffu64
    &&& limits.cost_limit_usd is Some ==> limits.cost_limit_usd->Some_0.finite() && limits.cost_limit_usd->Some_0.rank()
        > 0
}

/// A new goal gets the defaults, no limits, or the limits that were given where
/// they are sensible and there is one; an existing goal never gets the
/// defaults.
pub proof fn law_which_limits_are_selected(defaults: GoalBudgetLimits, given: GoalBudgetLimits)
    ensures
        selected_limits(defaults, GoalBudgetSelection::Defaults) == Ok::<GoalBudgetLimits, GoalError>(defaults),
        selected_limits(defaults, GoalBudgetSelection::Unlimited) matches Ok(limits) && !has_a_limit(limits),
        updated_limits(GoalBudgetSelection::Unlimited) matches Ok(limits) && !has_a_limit(limits),
        updated_limits(GoalBudgetSelection::Defaults) is Err,
        selected_limits(defaults, GoalBudgetSelection::Limits(given)) == updated_limits(
            GoalBudgetSelection::Limits(given),
        ),
        updated_limits(GoalBudgetSelection::Limits(given)) == (if has_a_limit(given) && sensible(given) {
            Ok::<GoalBudgetLimits, GoalError>(given)
        } else {
            Err::<GoalBudgetLimits, GoalError>(
                GoalError { text: Text::Fixed("Goal finite budget limits are invalid"), cause: None },
            )
        }),
{
}

/// Default limits are accepted exactly where they are sensible; enabled goals
/// without limits need a configuration; and an owner has a name.
pub proof fn law_which_settings_are_accepted(enabled: bool, limits: GoalBudgetLimits, boot_id: Seq<char>)
    ensures
        super::settings::default_limits_error(limits) is None <==> sensible(limits),
        super::settings::configured_error(limits, boot_id) is None <==> sensible(limits) && trimmed(boot_id).len() > 0,
        super::settings::settings_error(enabled, limits, boot_id) is None <==> sensible(limits) && trimmed(
            boot_id,
        ).len() > 0 && (enabled ==> has_a_limit(limits)),
{
}

// ---------------------------------------------------------------- replays
/// A request of the agent that can be replayed.
pub open spec fn can_be_replayed(blocker: GoalBlocker) -> bool {
    &&& blocker.kind == GoalBlockerKind::NeedsUserInput || blocker.kind == GoalBlockerKind::HumanEscalation
        || blocker.kind == GoalBlockerKind::ExternalDependency
    &&& spelled_out(blocker.message) matches Some(words) && trimmed(words).len() > 0
}

proof fn lemma_replay(blockers: Seq<GoalBlocker>, from: int)
    requires
        0 <= from <= blockers.len(),
    ensures
        ({
            let at = super::prompt::replay_position(blockers, from);
            &&& from <= at <= blockers.len()
            &&& at < blockers.len() ==> can_be_replayed(blockers[at])
            &&& forall|i: int| from <= i < at ==> !can_be_replayed(#[trigger] blockers[i])
        }),
    decreases blockers.len() - from,
{
    if from < blockers.len() {
        lemma_replay(blockers, from + 1);
    }
}

/// What is replayed is the first request that the agent itself raised and that
/// says something, in its words.
pub proof fn law_first_request_is_replayed(blockers: Seq<GoalBlocker>)
    ensures
        match super::prompt::paused_request_of(blockers) {
            Some((kind, words)) => exists|i: int|
                0 <= i < blockers.len() && can_be_replayed(#[trigger] blockers[i]) && kind == blockers[i].kind && (
                spelled_out(blockers[i].message) matches Some(said) && words == trimmed(said)) && forall|j: int|
                    0 <= j < i ==> !can_be_replayed(#[trigger] blockers[j]),
            None => forall|i: int| 0 <= i < blockers.len() ==> !can_be_replayed(#[trigger] blockers[i]),
        },
{
    lemma_replay(blockers, 0);
    let at = super::prompt::replay_position(blockers, 0);
    if at < blockers.len() {
        assert(can_be_replayed(blockers[at]));
    }
}

} // verus!
