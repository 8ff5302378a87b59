//! What holds of every conversation between controller and registry, and of
//! the two together.
use vstd::prelude::*;
#[allow(unused_imports)]
use vstd::string::*;

use super::controller::{
    answer, cancel, new_session_goal, operator_pause, pause, resume, set_budget, start, status, Answer, AdmittedCommand,
    GoalTicket, Progress, RegistryReply, RegistryRequest,
};
use super::session::{
    matrix_key_error, owns_task, scope_error, zero_code_key_error, GoalIngressContext, GoalSessionKey,
};
use super::settings::{
    selected_limits, GoalBudgetSelection, GoalHostSettings,
};
use super::status::{resumable_goal, Plain, ResponseView};
use crate::clock::uuid_char;
use crate::goal_task::{GoalPauseReason, GoalPauseView, GoalTaskRecord, GoalTransitionResult};
use crate::store::session::{
    create_outcome, new_goal_error, pausable, paused, replaceable, resumable, session_occupant,
};
use crate::store::{has_id, row_valid, store_blank, TaskRowView};
use crate::task::TaskRecord;
use crate::text::{blank, trimmed, whitespace};

verus! {

/// A request that changes the task tables.
pub open spec fn mutates(request: RegistryRequest) -> bool {
    match request {
        RegistryRequest::CurrentGoal { .. } => false,
        RegistryRequest::Extension { .. } => false,
        RegistryRequest::TerminalReason { .. } => false,
        _ => true,
    }
}

/// A resume of a goal that runs changes nothing: it is answered from the first
/// reply alone, whatever comes with it.
pub proof fn law_resume_of_running_goal_changes_nothing(
    settings: GoalHostSettings,
    ingress: GoalIngressContext,
    has_response: bool,
    task: TaskRecord,
    replies: Seq<RegistryReply>,
)
    requires
        replies.len() > 0,
        replies[0] == RegistryReply::Task(Some(task)),
        owns_task(ingress, task.principal_id),
        task.status is Running,
    ensures
        resume(settings, ingress, has_response, replies) == Progress::<Answer>::Ready(
            (
                ResponseView::Plain(
                    if has_response {
                        Plain::ResponseRequiresPause
                    } else {
                        Plain::AlreadyActive
                    },
                ),
                None,
            ),
            1,
        ),
{
}

/// To a speaker who does not own the goal of the session, the session has no
/// goal: nothing of it is shown and nothing is changed.
pub proof fn law_stranger_learns_nothing(
    settings: GoalHostSettings,
    ingress: GoalIngressContext,
    selection: GoalBudgetSelection,
    flag: bool,
    task: TaskRecord,
    replies: Seq<RegistryReply>,
)
    requires
        replies.len() > 0,
        replies[0] == RegistryReply::Task(Some(task)),
        !owns_task(ingress, task.principal_id),
    ensures
        ({
            let nothing = Progress::Ready(ResponseView::Plain(Plain::NoCurrentGoal), 1);
            &&& status(ingress, flag, replies) == nothing
            &&& set_budget(ingress, selection, replies) == nothing
            &&& pause(ingress, replies) == nothing
            &&& cancel(ingress, replies) == nothing
            &&& resume(settings, ingress, flag, replies) == Progress::<Answer>::Ready(
                (ResponseView::Plain(Plain::NoCurrentGoal), None),
                1,
            )
        }),
{
}

/// A speaker who starts a goal in a session that a goal of another occupies is
/// told that there is none.
pub proof fn law_stranger_start_learns_nothing(
    settings: GoalHostSettings,
    ingress: GoalIngressContext,
    selection: GoalBudgetSelection,
    objective: String,
    ticket: GoalTicket,
    task: TaskRecord,
    replies: Seq<RegistryReply>,
)
    requires
        selected_limits(settings.defaults(), selection) is Ok,
        replies.len() >= 2,
        replies[0] == RegistryReply::Transition(GoalTransitionResult::Stale),
        replies[1] == RegistryReply::Task(Some(task)),
        !owns_task(ingress, task.principal_id),
    ensures
        start(settings, ingress, selection, objective, None, ticket, replies) == Progress::Ready(
            ResponseView::Plain(Plain::NoCurrentGoal),
            2,
        ),
{
}

/// Every transition that a command asks for after it has read the goal is for
/// exactly the goal, session and epoch that it read, and the goal was active
/// and the speaker's own.
pub proof fn law_transitions_carry_what_was_read(
    settings: GoalHostSettings,
    submission: AdmittedCommand,
    ticket: GoalTicket,
    replies: Seq<RegistryReply>,
    request: RegistryRequest,
)
    requires
        !(submission.command is Start),
        answer(settings, submission, ticket, replies) == Progress::<Answer>::Ask(request),
        mutates(request),
    ensures
        submission.admitted,
        settings.on(),
        replies.len() > 0,
        ({
            &&& replies[0] matches RegistryReply::Task(Some(task))
            &&& owns_task(submission.ingress, task.principal_id)
            &&& task.status.active()
            &&& match request {
                RegistryRequest::Pause { task_id, session, epoch, pause } => task_id == task.id && session
                    == submission.ingress.key() && epoch == task.execution_epoch && task.status is Running && pause
                    == operator_pause(),
                RegistryRequest::Resume { task_id, session, epoch, owner_pid, owner_boot_id } => task_id == task.id
                    && session == submission.ingress.key() && epoch == task.execution_epoch && task.status is Paused
                    && owner_pid == settings.pid() && owner_boot_id == settings.boot(),
                RegistryRequest::Finish { task_id, session, epoch, status, reason } => task_id == task.id && session
                    == submission.ingress.key() && epoch == task.execution_epoch && status is Cancelled && reason is None,
                RegistryRequest::UpdateLimits { task_id, session, epoch, limits: _ } => task_id == task.id && session
                    == submission.ingress.key() && epoch == task.execution_epoch,
                _ => false,
            }
        }),
{
}

/// A command that is not admitted, or that goals are disabled for, asks for
/// nothing.
pub proof fn law_disabled_commands_ask_nothing(
    settings: GoalHostSettings,
    submission: AdmittedCommand,
    ticket: GoalTicket,
    replies: Seq<RegistryReply>,
)
    requires
        !submission.admitted || !settings.on(),
    ensures
        answer(settings, submission, ticket, replies) == Progress::<Answer>::Ready(
            (
                ResponseView::Plain(
                    if submission.command is Help {
                        Plain::Help
                    } else {
                        Plain::Disabled
                    },
                ),
                None,
            ),
            0,
        ),
{
}

/// A goal that is shown as resumable can be resumed in the store, at the epoch
/// that is shown.
pub proof fn law_resumable_means_resumable(row: TaskRowView)
    requires
        row.task.kind is Goal,
        row.task.session_id is Some,
        row.goal is Some,
        resumable_goal(row.task, row.goal->Some_0),
    ensures
        resumable(row.task.id@, row.task.session_id->Some_0@, row.task.execution_epoch)(row),
{
}

/// Conversely, a goal that the store would resume is shown as resumable.
pub proof fn law_store_resumable_is_shown(row: TaskRowView, session_id: Seq<char>)
    requires
        row_valid(row),
        resumable(row.task.id@, session_id, row.task.execution_epoch)(row),
    ensures
        resumable_goal(row.task, row.goal->Some_0),
{
}

/// The store accepts the goal that a start asks for, in the session of the
/// speaker, wherever its id is free and the session is not held by an active
/// or unsettled goal.
pub proof fn law_started_goal_is_accepted(
    settings: GoalHostSettings,
    ingress: GoalIngressContext,
    objective: String,
    selection: GoalBudgetSelection,
    ticket: GoalTicket,
    task: TaskRecord,
    rows: Seq<TaskRowView>,
)
    requires
        settings.well_formed(),
        selected_limits(settings.defaults(), selection) is Ok,
        !blank(objective@),
        !blank(ingress.key().id()),
        !store_blank(ingress.key().id()),
        new_session_goal(
            settings,
            ingress,
            objective,
            selected_limits(settings.defaults(), selection)->Ok_0,
            ticket,
        ).is_task(task),
        !has_id(rows, ticket.task_id@),
        session_occupant(rows, ingress.key().id()) matches Some(row) ==> replaceable(row),
    ensures
        ({
            let goal = new_session_goal(
                settings,
                ingress,
                objective,
                selected_limits(settings.defaults(), selection)->Ok_0,
                ticket,
            );
            create_outcome(rows, task, goal.extension()) == Ok::<GoalTransitionResult, crate::store::error::StoreError>(
                GoalTransitionResult::Applied,
            )
        }),
{
    let goal = new_session_goal(
        settings,
        ingress,
        objective,
        selected_limits(settings.defaults(), selection)->Ok_0,
        ticket,
    );
    assert(new_goal_error(task, goal.extension()) is None);
}

/// A goal that was started with a drawn id, in a session with a valid key,
/// can always be executed: its id, its session and its epoch make a scope.
pub proof fn law_started_goal_has_a_scope(task_id: Seq<char>, session: GoalSessionKey, sanitized: Seq<char>, epoch: i64)
    requires
        task_id.len() == 36,
        forall|i: int| 0 <= i < 36 ==> uuid_char(#[trigger] task_id[i]),
        match session {
            GoalSessionKey::Matrix { history_key } => matrix_key_error(history_key@, sanitized) is None,
            GoalSessionKey::ZeroCode { raw_session_id } => zero_code_key_error(raw_session_id@, sanitized) is None,
        },
        epoch >= 1,
    ensures
        scope_error(task_id, session.id(), epoch) is None,
{
    lemma_unspaced_is_trimmed(task_id);
    match session {
        GoalSessionKey::Matrix { .. } => {},
        GoalSessionKey::ZeroCode { raw_session_id } => {
            reveal_strlit("rpc_");
            crate::text::law_trim_idempotent(raw_session_id@);
            assert(session.id()[0] == 'r');
            assert(session.id().last() == raw_session_id@.last());
            lemma_unspaced_is_trimmed(session.id());
        },
    }
}

/// A text without white space at its ends is trimmed.
proof fn lemma_unspaced_is_trimmed(s: Seq<char>)
    requires
        s.len() > 0,
        !whitespace(s[0]),
        !whitespace(s.last()),
    ensures
        trimmed(s) == s,
        !blank(s),
{
}

/// Without interference, a pause of a running goal answers with that goal,
/// paused by the operator and one epoch on.
pub proof fn law_pause_round_trip(
    ingress: GoalIngressContext,
    row: TaskRowView,
    goal: GoalTaskRecord,
    replies: Seq<RegistryReply>,
)
    requires
        owns_task(ingress, row.task.principal_id),
        pausable(row.task.id@, ingress.key().id(), row.task.execution_epoch)(row),
        ({
            let after = paused(
                GoalPauseView {
                    reason: GoalPauseReason::OperatorPaused,
                    description: None,
                    blockers: Seq::empty(),
                },
            )(row);
            &&& replies.len() >= 4
            &&& replies[0] == RegistryReply::Task(Some(row.task))
            &&& replies[1] == RegistryReply::Transition(GoalTransitionResult::Applied)
            &&& replies[2] == RegistryReply::Task(Some(after.task))
            &&& replies[3] == RegistryReply::Extension(Some(goal))
            &&& after.goal == Some(goal@)
        }),
    ensures
        ({
            &&& pause(ingress, replies) matches Progress::Ready(ResponseView::Shown(kind, state), used)
            &&& used == 4
            &&& kind is Paused
            &&& state.task_id == row.task.id
            &&& state.status is Paused
            &&& state.execution_epoch == row.task.execution_epoch + 1
            &&& state.pause_reason == Some(GoalPauseReason::OperatorPaused)
            &&& state.blocker_messages == Seq::<crate::message::Text>::empty()
        }),
{
    let shown = pause(ingress, replies);
    assert(shown matches Progress::Ready(ResponseView::Shown(_, state), _) && state.blocker_messages
        =~= Seq::<crate::message::Text>::empty());
}

} // verus!
