//! Finding the goal that a command is about.
use vstd::prelude::*;
#[allow(unused_imports)]
use vstd::string::*;

use super::context::GoalAdmissionContext;
use super::flow::{
    applied_reply, await_applied, await_continuation, await_goal, await_task, continuation_reply, goal_reply, seen,
    seen_goal, seen_goal_option, task_reply, GoalReply, GoalRequest, Step, StepView,
};
use crate::error::{failure, GoalError};
use crate::goal_task::{TaskContinuationContext, TaskGoal, TaskGoalView};
use crate::message::{label, message1, msg, msg1, Text};
use crate::task::{TaskKind, TaskRecord};
use crate::text::{clone_opt, opt_view, same_opt, same_text};

verus! {

/// A catalogue entry about a task.
pub open spec fn about(key: &'static str, task_id: String) -> Text {
    message1(key, "task_id", Text::Plain(task_id))
}

pub fn tell_about(key: &'static str, task_id: &String) -> (r: Text)
    ensures
        r == about(key, *task_id),
{
    msg1(key, "task_id", Text::Plain(task_id.clone()))
}

/// Why a task is out of a speaker's sight: it is no goal, or another agent's,
/// or tied to another route or principal.
pub open spec fn visibility_error(task: TaskRecord, ctx: GoalAdmissionContext) -> Option<GoalError> {
    if !(task.kind is Goal) {
        Some(failure(about("goal-command-error-not-goal", task.id)))
    } else if task.agent@ != ctx.agent_alias@ {
        Some(failure(about("goal-command-error-wrong-agent", task.id)))
    } else if task.originator_route is Some && opt_view(ctx.originator_route) != opt_view(task.originator_route) {
        Some(failure(about("goal-command-error-wrong-route", task.id)))
    } else if task.principal_id is Some && opt_view(ctx.principal_id) != opt_view(task.principal_id) {
        Some(failure(about("goal-command-error-wrong-principal", task.id)))
    } else {
        None
    }
}

pub fn ensure_goal_visible(task: &TaskRecord, ctx: &GoalAdmissionContext) -> (r: Result<(), GoalError>)
    ensures
        match visibility_error(*task, *ctx) {
            Some(error) => r == Err::<(), GoalError>(error),
            None => r == Ok::<(), GoalError>(()),
        },
{
    if task.kind != TaskKind::Goal {
        return Err(GoalError::new(tell_about("goal-command-error-not-goal", &task.id)));
    }
    if !same_text(task.agent.as_str(), ctx.agent_alias.as_str()) {
        return Err(GoalError::new(tell_about("goal-command-error-wrong-agent", &task.id)));
    }
    if task.originator_route.is_some() && !same_opt(&ctx.originator_route, &task.originator_route) {
        return Err(GoalError::new(tell_about("goal-command-error-wrong-route", &task.id)));
    }
    if task.principal_id.is_some() && !same_opt(&ctx.principal_id, &task.principal_id) {
        return Err(GoalError::new(tell_about("goal-command-error-wrong-principal", &task.id)));
    }
    Ok(())
}

/// A goal that an older release stored for the speaker: everything about it is
/// known on both sides, and it is under the speaker's old identity.
pub open spec fn legacy_goal(task: TaskRecord, ctx: GoalAdmissionContext) -> bool {
    &&& ctx.originator_route is Some
    &&& ctx.principal_id is Some
    &&& ctx.legacy_originator_route is Some
    &&& ctx.legacy_principal_id is Some
    &&& ctx.continuation_context is Some
    &&& task.originator_route is Some
    &&& task.principal_id is Some
    &&& task.kind is Goal
    &&& task.agent@ == ctx.agent_alias@
    &&& opt_view(task.originator_route) == opt_view(ctx.legacy_originator_route)
    &&& opt_view(task.principal_id) == opt_view(ctx.legacy_principal_id)
}

/// Both contexts are there and say the same.
pub open spec fn same_continuation(a: Option<TaskContinuationContext>, b: Option<TaskContinuationContext>) -> bool {
    a is Some && b is Some && a->Some_0@ == b->Some_0@
}

/// A task that the speaker may see, moved to the speaker's identity if an
/// older release stored it and it continues exactly where the speaker is.
pub open spec fn visible_task(
    task: TaskRecord,
    ctx: GoalAdmissionContext,
    replies: Seq<GoalReply>,
    from: usize,
) -> StepView<TaskRecord> {
    match visibility_error(task, ctx) {
        None => StepView::Ready(task, from),
        Some(hidden) => if !legacy_goal(task, ctx) {
            StepView::Fail(hidden)
        } else {
            match continuation_reply(GoalRequest::ReadContinuation(task.id), replies, from) {
                StepView::Ask(request) => StepView::Ask(request),
                StepView::Fail(error) => StepView::Fail(error),
                StepView::Ready(stored, next) => if !same_continuation(stored, ctx.continuation_context) {
                    StepView::Fail(hidden)
                } else {
                    match applied_reply(
                        GoalRequest::Rebind {
                            task_id: task.id,
                            from_route: task.originator_route->Some_0,
                            from_principal: task.principal_id->Some_0,
                            to_route: ctx.originator_route->Some_0,
                            to_principal: ctx.principal_id->Some_0,
                        },
                        Some(label("goal-command-error-lookup-failed")),
                        replies,
                        next,
                    ) {
                        StepView::Ask(request) => StepView::Ask(request),
                        StepView::Fail(error) => StepView::Fail(error),
                        StepView::Ready(rebound, next) => if rebound {
                            StepView::Ready(
                                TaskRecord {
                                    originator_route: ctx.originator_route,
                                    principal_id: ctx.principal_id,
                                    ..task
                                },
                                next,
                            )
                        } else {
                            StepView::Fail(failure(about("goal-command-error-wrong-route", task.id)))
                        },
                    }
                },
            }
        },
    }
}

fn is_legacy_goal(task: &TaskRecord, ctx: &GoalAdmissionContext) -> (r: bool)
    ensures
        r == legacy_goal(*task, *ctx),
{
    ctx.originator_route.is_some() && ctx.principal_id.is_some() && ctx.legacy_originator_route.is_some()
        && ctx.legacy_principal_id.is_some() && ctx.continuation_context.is_some() && task.originator_route.is_some()
        && task.principal_id.is_some() && task.kind == TaskKind::Goal && same_text(
        task.agent.as_str(),
        ctx.agent_alias.as_str(),
    ) && same_opt(&task.originator_route, &ctx.legacy_originator_route) && same_opt(
        &task.principal_id,
        &ctx.legacy_principal_id,
    )
}

pub fn ensure_goal_visible_or_rebind(
    task: TaskRecord,
    ctx: &GoalAdmissionContext,
    replies: &Vec<GoalReply>,
    from: usize,
) -> (r: Step<TaskRecord>)
    ensures
        seen(r) == visible_task(task, *ctx, replies@, from),
{
    let hidden = match ensure_goal_visible(&task, ctx) {
        Ok(()) => {
            return Step::Ready(task, from);
        },
        Err(error) => error,
    };
    if !is_legacy_goal(&task, ctx) {
        return Step::Fail(hidden);
    }
    let (stored, next) = match await_continuation(GoalRequest::ReadContinuation(task.id.clone()), replies, from) {
        Step::Ask(request) => {
            return Step::Ask(request);
        },
        Step::Fail(error) => {
            return Step::Fail(error);
        },
        Step::Ready(stored, next) => (stored, next),
    };
    let same = match (&stored, &ctx.continuation_context) {
        (Some(stored), Some(expected)) => stored.same(expected),
        _ => false,
    };
    if !same {
        return Step::Fail(hidden);
    }
    match (&ctx.originator_route, &ctx.principal_id, &task.originator_route, &task.principal_id) {
        (Some(to_route), Some(to_principal), Some(from_route), Some(from_principal)) => {
            let request = GoalRequest::Rebind {
                task_id: task.id.clone(),
                from_route: from_route.clone(),
                from_principal: from_principal.clone(),
                to_route: to_route.clone(),
                to_principal: to_principal.clone(),
            };
            match await_applied(request, Some(msg("goal-command-error-lookup-failed")), replies, next) {
                Step::Ask(request) => Step::Ask(request),
                Step::Fail(error) => Step::Fail(error),
                Step::Ready(rebound, next) => {
                    if !rebound {
                        return Step::Fail(GoalError::new(tell_about("goal-command-error-wrong-route", &task.id)));
                    }
                    let mut task = task;
                    task.originator_route = clone_opt(&ctx.originator_route);
                    task.principal_id = clone_opt(&ctx.principal_id);
                    Step::Ready(task, next)
                },
            }
        },
        _ => Step::Fail(hidden),
    }
}

/// The task that a command names, or else the latest active goal in sight.
pub open spec fn find_task(
    ctx: GoalAdmissionContext,
    task_id: Option<String>,
    replies: Seq<GoalReply>,
    from: usize,
) -> StepView<TaskRecord> {
    match task_id {
        Some(id) => match task_reply(
            GoalRequest::ReadTask(id),
            Some(label("goal-command-error-lookup-failed")),
            replies,
            from,
        ) {
            StepView::Ask(request) => StepView::Ask(request),
            StepView::Fail(error) => StepView::Fail(error),
            StepView::Ready(None, _) => StepView::Fail(failure(about("goal-command-error-not-found", id))),
            StepView::Ready(Some(task), next) => visible_task(task, ctx, replies, next),
        },
        None => match task_reply(
            latest_active(ctx),
            Some(label("goal-command-error-lookup-failed")),
            replies,
            from,
        ) {
            StepView::Ask(request) => StepView::Ask(request),
            StepView::Fail(error) => StepView::Fail(error),
            StepView::Ready(None, _) => StepView::Fail(failure(label("goal-command-error-no-active-goal"))),
            StepView::Ready(Some(task), next) => match visibility_error(task, ctx) {
                Some(error) => StepView::Fail(error),
                None => StepView::Ready(task, next),
            },
        },
    }
}

/// The request for the latest active goal in a context.
pub open spec fn latest_active<P, G>(ctx: GoalAdmissionContext) -> GoalRequest<P, G> {
    GoalRequest::LatestActive { agent: ctx.agent_alias, route: ctx.originator_route, principal: ctx.principal_id }
}

pub fn ask_latest_active(ctx: &GoalAdmissionContext) -> (r: super::flow::Asked)
    ensures
        r == latest_active::<crate::goal_task::GoalPauseState, crate::goal_task::GoalTaskRecord>(*ctx),
{
    GoalRequest::LatestActive {
        agent: ctx.agent_alias.clone(),
        route: clone_opt(&ctx.originator_route),
        principal: clone_opt(&ctx.principal_id),
    }
}

pub fn resolve_goal_task(
    ctx: &GoalAdmissionContext,
    task_id: Option<String>,
    replies: &Vec<GoalReply>,
    from: usize,
) -> (r: Step<TaskRecord>)
    ensures
        seen(r) == find_task(*ctx, task_id, replies@, from),
{
    match task_id {
        Some(id) => {
            match await_task(
                GoalRequest::ReadTask(id.clone()),
                Some(msg("goal-command-error-lookup-failed")),
                replies,
                from,
            ) {
                Step::Ask(request) => Step::Ask(request),
                Step::Fail(error) => Step::Fail(error),
                Step::Ready(None, _) => Step::Fail(GoalError::new(tell_about("goal-command-error-not-found", &id))),
                Step::Ready(Some(task), next) => ensure_goal_visible_or_rebind(task, ctx, replies, next),
            }
        },
        None => {
            match await_task(
                ask_latest_active(ctx),
                Some(msg("goal-command-error-lookup-failed")),
                replies,
                from,
            ) {
                Step::Ask(request) => Step::Ask(request),
                Step::Fail(error) => Step::Fail(error),
                Step::Ready(None, _) => Step::Fail(GoalError::new(msg("goal-command-error-no-active-goal"))),
                Step::Ready(Some(task), next) => match ensure_goal_visible(&task, ctx) {
                    Err(error) => Step::Fail(error),
                    Ok(()) => Step::Ready(task, next),
                },
            }
        },
    }
}

/// A task with its extension row.
pub open spec fn extended(task: TaskRecord, replies: Seq<GoalReply>, from: usize) -> StepView<TaskGoalView> {
    match goal_reply(
        GoalRequest::ReadGoal(task.id),
        Some(label("goal-command-error-status-failed")),
        replies,
        from,
    ) {
        StepView::Ask(request) => StepView::Ask(request),
        StepView::Fail(error) => StepView::Fail(error),
        StepView::Ready(None, _) => StepView::Fail(failure(about("goal-command-error-extension-missing", task.id))),
        StepView::Ready(Some(goal), next) => StepView::Ready(TaskGoalView { task, goal }, next),
    }
}

pub fn load_goal_extension(task: TaskRecord, replies: &Vec<GoalReply>, from: usize) -> (r: Step<TaskGoal>)
    ensures
        seen_goal(r) == extended(task, replies@, from),
{
    match await_goal(
        GoalRequest::ReadGoal(task.id.clone()),
        Some(msg("goal-command-error-status-failed")),
        replies,
        from,
    ) {
        Step::Ask(request) => Step::Ask(request),
        Step::Fail(error) => Step::Fail(error),
        Step::Ready(None, _) => Step::Fail(
            GoalError::new(tell_about("goal-command-error-extension-missing", &task.id)),
        ),
        Step::Ready(Some(goal), next) => Step::Ready(TaskGoal::new(task, goal), next),
    }
}

/// The goal that a command is about.
pub open spec fn find_goal(
    ctx: GoalAdmissionContext,
    task_id: Option<String>,
    replies: Seq<GoalReply>,
    from: usize,
) -> StepView<TaskGoalView> {
    match find_task(ctx, task_id, replies, from) {
        StepView::Ask(request) => StepView::Ask(request),
        StepView::Fail(error) => StepView::Fail(error),
        StepView::Ready(task, next) => extended(task, replies, next),
    }
}

pub fn resolve_goal(
    ctx: &GoalAdmissionContext,
    task_id: Option<String>,
    replies: &Vec<GoalReply>,
    from: usize,
) -> (r: Step<TaskGoal>)
    ensures
        seen_goal(r) == find_goal(*ctx, task_id, replies@, from),
{
    match resolve_goal_task(ctx, task_id, replies, from) {
        Step::Ask(request) => Step::Ask(request),
        Step::Fail(error) => Step::Fail(error),
        Step::Ready(task, next) => load_goal_extension(task, replies, next),
    }
}

/// The goal that a turn works for: the one its context is bound to, or else
/// the latest active one, if any.
pub open spec fn find_active_goal(ctx: GoalAdmissionContext, replies: Seq<GoalReply>, from: usize) -> StepView<
    Option<TaskGoalView>,
> {
    match ctx.goal_task_id {
        Some(id) => match find_goal(ctx, Some(id), replies, from) {
            StepView::Ask(request) => StepView::Ask(request),
            StepView::Fail(error) => StepView::Fail(error),
            StepView::Ready(goal, next) => StepView::Ready(Some(goal), next),
        },
        None => match task_reply(
            latest_active(ctx),
            Some(label("goal-command-error-active-goal-lookup-failed")),
            replies,
            from,
        ) {
            StepView::Ask(request) => StepView::Ask(request),
            StepView::Fail(error) => StepView::Fail(error),
            StepView::Ready(None, next) => StepView::Ready(None, next),
            StepView::Ready(Some(task), next) => match visibility_error(task, ctx) {
                Some(error) => StepView::Fail(error),
                None => match extended(task, replies, next) {
                    StepView::Ask(request) => StepView::Ask(request),
                    StepView::Fail(error) => StepView::Fail(error),
                    StepView::Ready(goal, next) => StepView::Ready(Some(goal), next),
                },
            },
        },
    }
}

pub fn latest_active_resolved_goal(ctx: &GoalAdmissionContext, replies: &Vec<GoalReply>, from: usize) -> (r: Step<
    Option<TaskGoal>,
>)
    ensures
        seen_goal_option(r) == find_active_goal(*ctx, replies@, from),
{
    match &ctx.goal_task_id {
        Some(id) => match resolve_goal(ctx, Some(id.clone()), replies, from) {
            Step::Ask(request) => Step::Ask(request),
            Step::Fail(error) => Step::Fail(error),
            Step::Ready(goal, next) => Step::Ready(Some(goal), next),
        },
        None => match await_task(
            ask_latest_active(ctx),
            Some(msg("goal-command-error-active-goal-lookup-failed")),
            replies,
            from,
        ) {
            Step::Ask(request) => Step::Ask(request),
            Step::Fail(error) => Step::Fail(error),
            Step::Ready(None, next) => Step::Ready(None, next),
            Step::Ready(Some(task), next) => match ensure_goal_visible(&task, ctx) {
                Err(error) => Step::Fail(error),
                Ok(()) => match load_goal_extension(task, replies, next) {
                    Step::Ask(request) => Step::Ask(request),
                    Step::Fail(error) => Step::Fail(error),
                    Step::Ready(goal, next) => Step::Ready(Some(goal), next),
                },
            },
        },
    }
}

/// A goal that a command gets hold of is a goal of the speaker's agent, on the
/// speaker's route and of the speaker where it is tied to one.
pub proof fn law_found_goal_is_in_sight(
    ctx: GoalAdmissionContext,
    task_id: Option<String>,
    replies: Seq<GoalReply>,
    from: usize,
)
    requires
        find_task(ctx, task_id, replies, from) is Ready,
    ensures
        visibility_error(find_task(ctx, task_id, replies, from)->Ready_0, ctx) is None,
{
}

/// A goal is moved to a new identity only where its stored continuation is
/// exactly the speaker's, and only from the old identity to the current one.
pub proof fn law_rebind_needs_exact_continuation(
    task: TaskRecord,
    ctx: GoalAdmissionContext,
    replies: Seq<GoalReply>,
    from: usize,
    request: super::flow::AskedView,
)
    requires
        visible_task(task, ctx, replies, from) == StepView::<TaskRecord>::Ask(request),
        request is Rebind,
    ensures
        legacy_goal(task, ctx),
        from < replies.len(),
        replies[from as int] matches GoalReply::Continuation(stored) && same_continuation(
            stored,
            ctx.continuation_context,
        ),
        request == (super::flow::AskedView::Rebind {
            task_id: task.id,
            from_route: task.originator_route->Some_0,
            from_principal: task.principal_id->Some_0,
            to_route: ctx.originator_route->Some_0,
            to_principal: ctx.principal_id->Some_0,
        }),
{
}

} // verus!
