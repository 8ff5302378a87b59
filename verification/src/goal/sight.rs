//! Which goal a command or a turn gets hold of, and who may see it.
use vstd::prelude::*;
#[allow(unused_imports)]
use vstd::string::*;

use super::answers::refusal;
use super::context::GoalAdmissionContext;
use super::flow::{GoalReply, GoalRequest, StepView};
use super::outcomes::{asks, complaint, made};
use super::visibility::{
    find_active_goal, find_goal, find_task, legacy_goal, same_continuation, visibility_error, visible_task,
};

use crate::error::GoalError;
use crate::goal_task::{TaskContinuationContext, TaskGoalView};
use crate::task::{TaskKind, TaskRecord};

verus! {

/// A failure of the stores, told in the words of the catalogue.
pub open spec fn failed(key: &'static str, error: GoalError) -> GoalError {
    GoalError { text: refusal(key).text, cause: Some(Box::new(error)) }
}

/// Two texts that may be missing are the same.
pub open spec fn alike(a: Option<String>, b: Option<String>) -> bool {
    match (a, b) {
        (Some(a), Some(b)) => a@ == b@,
        (None, None) => true,
        _ => false,
    }
}

/// A speaker sees the goals of its agent that are not tied to another route or
/// to another principal; what a goal is not tied to does not count. What is
/// hidden is hidden for the first of these reasons.
pub proof fn law_who_sees_a_goal(task: TaskRecord, ctx: GoalAdmissionContext)
    ensures
        ({
            let own = task.agent@ == ctx.agent_alias@;
            let routed = task.originator_route is None || alike(task.originator_route, ctx.originator_route);
            let known = task.principal_id is None || alike(task.principal_id, ctx.principal_id);
            &&& visibility_error(task, ctx) is None <==> task.kind == TaskKind::Goal && own && routed && known
            &&& task.kind != TaskKind::Goal ==> visibility_error(task, ctx) == Some(
                complaint("goal-command-error-not-goal", task.id),
            )
            &&& task.kind == TaskKind::Goal && !own ==> visibility_error(task, ctx) == Some(
                complaint("goal-command-error-wrong-agent", task.id),
            )
            &&& task.kind == TaskKind::Goal && own && !routed ==> visibility_error(task, ctx) == Some(
                complaint("goal-command-error-wrong-route", task.id),
            )
            &&& task.kind == TaskKind::Goal && own && routed && !known ==> visibility_error(task, ctx) == Some(
                complaint("goal-command-error-wrong-principal", task.id),
            )
        }),
{
}

/// A goal of the speaker's agent under the speaker's old route and old
/// principal, where both sides are known in full.
pub proof fn law_which_goals_are_from_before(task: TaskRecord, ctx: GoalAdmissionContext)
    ensures
        legacy_goal(task, ctx) == (task.kind == TaskKind::Goal && task.agent@ == ctx.agent_alias@
            && task.originator_route is Some && task.principal_id is Some && alike(
            task.originator_route,
            ctx.legacy_originator_route,
        ) && alike(task.principal_id, ctx.legacy_principal_id) && ctx.originator_route is Some && ctx.principal_id
            is Some && ctx.continuation_context is Some),
{
}

/// A hidden goal comes into sight only if an older release stored it for the
/// speaker: then it is read where the goal continues, and if that is exactly
/// where the speaker is, the goal is moved to the speaker's identity.
#[verifier::spinoff_prover]
pub proof fn law_goal_from_before_is_moved(
    task: TaskRecord,
    ctx: GoalAdmissionContext,
    replies: Seq<GoalReply>,
    from: usize,
    stored: Option<TaskContinuationContext>,
)
    requires
        from <= replies.len() <= usize::MAX,
    ensures
        ({
            let step = visible_task(task, ctx, replies, from);
            match visibility_error(task, ctx) {
                None => step == StepView::Ready(task, from),
                Some(hidden) => if !legacy_goal(task, ctx) {
                    step == StepView::<TaskRecord>::Fail(hidden)
                } else {
                    &&& asks(step, replies, from as int, GoalRequest::ReadContinuation(task.id))
                    &&& replies.len() > from && replies[from as int] == GoalReply::Continuation(stored) ==> if stored
                        is Some && stored->Some_0@ == ctx.continuation_context->Some_0@ {
                        &&& asks(
                            step,
                            replies,
                            from + 1,
                            GoalRequest::Rebind {
                                task_id: task.id,
                                from_route: task.originator_route->Some_0,
                                from_principal: task.principal_id->Some_0,
                                to_route: ctx.originator_route->Some_0,
                                to_principal: ctx.principal_id->Some_0,
                            },
                        )
                        &&& made(replies, from + 1) ==> step == StepView::Ready(
                            TaskRecord {
                                originator_route: ctx.originator_route,
                                principal_id: ctx.principal_id,
                                ..task
                            },
                            (from + 2) as usize,
                        )
                        &&& replies.len() > from + 1 && replies[from + 1] == GoalReply::Applied(false) ==> step
                            == StepView::<TaskRecord>::Fail(complaint("goal-command-error-wrong-route", task.id))
                        &&& replies.len() > from + 1 ==> (replies[from + 1] matches GoalReply::Failed(error) ==> step
                            == StepView::<TaskRecord>::Fail(failed("goal-command-error-lookup-failed", error)))
                    } else {
                        step == StepView::<TaskRecord>::Fail(hidden)
                    }
                },
            }
        }),
{
}

/// Two continuations are the same only if both are there and say the same.
pub proof fn law_same_continuation(a: Option<TaskContinuationContext>, b: Option<TaskContinuationContext>)
    ensures
        same_continuation(a, b) ==> a is Some && b is Some,
        a is Some && b is Some ==> same_continuation(a, b) == (a->Some_0@ == b->Some_0@),
{
}

/// A command that names a task is about that task or about none; one that names
/// none is about the latest active goal of its context or about none.
#[verifier::spinoff_prover]
pub proof fn law_which_goal_a_command_is_about(
    ctx: GoalAdmissionContext,
    task_id: Option<String>,
    replies: Seq<GoalReply>,
    from: usize,
)
    requires
        from <= replies.len() <= usize::MAX,
    ensures
        ({
            let step = find_task(ctx, task_id, replies, from);
            let next = (from + 1) as usize;
            match task_id {
                Some(id) => {
                    &&& asks(step, replies, from as int, GoalRequest::ReadTask(id))
                    &&& replies.len() > from ==> match replies[from as int] {
                        GoalReply::Task(Some(task)) => step == visible_task(task, ctx, replies, next),
                        GoalReply::Task(None) => step == StepView::<TaskRecord>::Fail(
                            complaint("goal-command-error-not-found", id),
                        ),
                        GoalReply::Failed(error) => step == StepView::<TaskRecord>::Fail(
                            failed("goal-command-error-lookup-failed", error),
                        ),
                        _ => step is Fail,
                    }
                },
                None => {
                    &&& asks(
                        step,
                        replies,
                        from as int,
                        GoalRequest::LatestActive {
                            agent: ctx.agent_alias,
                            route: ctx.originator_route,
                            principal: ctx.principal_id,
                        },
                    )
                    &&& replies.len() > from ==> match replies[from as int] {
                        GoalReply::Task(Some(task)) => step == match visibility_error(task, ctx) {
                            None => StepView::Ready(task, next),
                            Some(hidden) => StepView::Fail(hidden),
                        },
                        GoalReply::Task(None) => step == StepView::<TaskRecord>::Fail(
                            refusal("goal-command-error-no-active-goal"),
                        ),
                        GoalReply::Failed(error) => step == StepView::<TaskRecord>::Fail(
                            failed("goal-command-error-lookup-failed", error),
                        ),
                        _ => step is Fail,
                    }
                },
            }
        }),
{
}

/// A goal is its task and the extension that is read for it, and nothing is a
/// goal without one.
#[verifier::spinoff_prover]
pub proof fn law_goal_is_read_with_its_extension(
    ctx: GoalAdmissionContext,
    task_id: Option<String>,
    replies: Seq<GoalReply>,
    from: usize,
    task: TaskRecord,
    at: usize,
)
    requires
        find_task(ctx, task_id, replies, from) == StepView::Ready(task, at),
        at <= replies.len() <= usize::MAX,
    ensures
        ({
            let step = find_goal(ctx, task_id, replies, from);
            &&& asks(step, replies, at as int, GoalRequest::ReadGoal(task.id))
            &&& replies.len() > at ==> match replies[at as int] {
                GoalReply::Goal(Some(goal)) => step == StepView::Ready(
                    TaskGoalView { task, goal: goal@ },
                    (at + 1) as usize,
                ),
                GoalReply::Goal(None) => step == StepView::<TaskGoalView>::Fail(
                    complaint("goal-command-error-extension-missing", task.id),
                ),
                GoalReply::Failed(error) => step == StepView::<TaskGoalView>::Fail(
                    failed("goal-command-error-status-failed", error),
                ),
                _ => step is Fail,
            }
        }),
{
}

/// Nothing is found where the task was not.
pub proof fn law_no_goal_without_a_task(
    ctx: GoalAdmissionContext,
    task_id: Option<String>,
    replies: Seq<GoalReply>,
    from: usize,
)
    ensures
        match find_task(ctx, task_id, replies, from) {
            StepView::Ask(request) => find_goal(ctx, task_id, replies, from) == StepView::<TaskGoalView>::Ask(request),
            StepView::Fail(error) => find_goal(ctx, task_id, replies, from) == StepView::<TaskGoalView>::Fail(error),
            _ => true,
        },
{
}

/// A turn that is bound works for its goal; any other works for the latest
/// active goal of its context, if there is one and it is in sight.
#[verifier::spinoff_prover]
pub proof fn law_which_goal_a_turn_works_for(ctx: GoalAdmissionContext, replies: Seq<GoalReply>, from: usize)
    requires
        from <= replies.len() <= usize::MAX,
    ensures
        ({
            let step = find_active_goal(ctx, replies, from);
            match ctx.goal_task_id {
                Some(id) => match find_goal(ctx, Some(id), replies, from) {
                    StepView::Ready(goal, next) => step == StepView::Ready(Some(goal), next),
                    StepView::Ask(request) => step == StepView::<Option<TaskGoalView>>::Ask(request),
                    StepView::Fail(error) => step == StepView::<Option<TaskGoalView>>::Fail(error),
                },
                None => {
                    &&& asks(
                        step,
                        replies,
                        from as int,
                        GoalRequest::LatestActive {
                            agent: ctx.agent_alias,
                            route: ctx.originator_route,
                            principal: ctx.principal_id,
                        },
                    )
                    &&& replies.len() > from ==> match replies[from as int] {
                        GoalReply::Task(None) => step == StepView::Ready(None::<TaskGoalView>, (from + 1) as usize),
                        GoalReply::Task(Some(task)) => match visibility_error(task, ctx) {
                            Some(hidden) => step == StepView::<Option<TaskGoalView>>::Fail(hidden),
                            None => {
                                &&& asks(step, replies, from + 1, GoalRequest::ReadGoal(task.id))
                                &&& replies.len() > from + 1 && (replies[from + 1] matches GoalReply::Goal(Some(goal)))
                                    ==> step == StepView::Ready(
                                    Some(TaskGoalView { task, goal: replies[from + 1]->Goal_0->Some_0@ }),
                                    (from + 2) as usize,
                                )
                                &&& replies.len() > from + 1 && replies[from + 1] == GoalReply::Goal(None) ==> step
                                    == StepView::<Option<TaskGoalView>>::Fail(
                                    complaint("goal-command-error-extension-missing", task.id),
                                )
                            },
                        },
                        GoalReply::Failed(error) => step == StepView::<Option<TaskGoalView>>::Fail(
                            failed("goal-command-error-active-goal-lookup-failed", error),
                        ),
                        _ => step is Fail,
                    }
                },
            }
        }),
{
}

} // verus!
