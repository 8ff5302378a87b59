//! Admitting commands.
use vstd::prelude::*;
#[allow(unused_imports)]
use vstd::string::*;

use super::command::{GoalCommand, GoalCommandAction};
use super::context::{publish_goal_state_update, update_of, GoalAdmission, GoalAdmissionContext};
use super::flow::{applied_reply, await_applied, await_done, done_reply, seen, GoalReply, GoalRequest, Step, StepView};
use super::lifecycle::{
    budget_steps, cancel_found_steps, cancel_goal, objective_steps, pause_found_steps, pause_goal_for_blocker,
    resume_found_steps, resume_goal, start_goal, start_steps, status_goal, status_steps, update_goal_budget,
    update_goal_objective, GoalIdentity,
};
use super::policy::{
    agent_position, ensure_goal_admitted_by_config, policy_error, resolve_goal_limits, resolved_limits, AgentPolicy,
    GoalPolicy,
};
use crate::error::{failure, GoalError};
use crate::goal_task::{GoalBlocker, GoalBlockerKind, GoalPauseReason, GoalPauseState, GoalPauseView};
use crate::message::{label, msg, Text};
use crate::task::TaskStatus;
use crate::text::clone_opt;

verus! {

/// Shows what a command led to.
pub open spec fn published(admission: GoalAdmission, replies: Seq<GoalReply>, from: usize) -> StepView<()> {
    done_reply(GoalRequest::Publish(update_of(admission)), None, replies, from)
}

pub fn publish(admission: &GoalAdmission, replies: &Vec<GoalReply>, from: usize) -> (r: Step<()>)
    ensures
        seen(r) == published(*admission, replies@, from),
{
    await_done(GoalRequest::Publish(publish_goal_state_update(admission)), None, replies, from)
}

/// The pause that an operator asks for, with an explanation or without.
pub open spec fn operator_pause(explanation: Option<String>) -> GoalPauseView {
    GoalPauseView {
        reason: GoalPauseReason::OperatorPaused,
        description: match explanation {
            Some(text) => Some(Text::Plain(text)),
            None => None,
        },
        blockers: match explanation {
            Some(text) => seq![
                GoalBlocker { kind: GoalBlockerKind::OperatorPause, message: Text::Plain(text), payload: None },
            ],
            None => Seq::empty(),
        },
    }
}

fn operator_pause_state(explanation: &Option<String>) -> (r: GoalPauseState)
    ensures
        r@ == operator_pause(*explanation),
{
    let mut blockers: Vec<GoalBlocker> = Vec::new();
    let description = match explanation {
        Some(text) => {
            blockers.push(
                GoalBlocker {
                    kind: GoalBlockerKind::OperatorPause,
                    message: Text::Plain(text.clone()),
                    payload: None,
                },
            );
            Some(Text::Plain(text.clone()))
        },
        None => None,
    };
    let r = GoalPauseState { reason: GoalPauseReason::OperatorPaused, description, blockers };
    assert(r@ =~= operator_pause(*explanation));
    r
}

/// What a command other than help does.
pub open spec fn command_steps(
    ctx: GoalAdmissionContext,
    command: GoalCommand,
    policy: GoalPolicy,
    identity: GoalIdentity,
    replies: Seq<GoalReply>,
) -> StepView<GoalAdmission> {
    match command.action {
        GoalCommandAction::Help => StepView::Ready(help_admission(), 0),
        GoalCommandAction::Start => match command.objective {
            None => StepView::Fail(failure(label("goal-command-error-missing-objective"))),
            Some(objective) => start_steps(
                ctx,
                objective,
                resolved_limits(policy, command.budgets).0,
                resolved_limits(policy, command.budgets).1,
                true,
                identity,
                replies,
                0,
            ),
        },
        GoalCommandAction::Objective => match command.objective {
            None => StepView::Fail(failure(label("goal-command-error-missing-objective"))),
            Some(objective) => objective_steps(ctx, objective, replies, 0),
        },
        GoalCommandAction::Status => status_steps(ctx, command.task_id, replies, 0),
        GoalCommandAction::Budget => budget_steps(ctx, command.budgets, true, identity.owner, replies, 0),
        GoalCommandAction::Pause => pause_found_steps(
            ctx,
            command.task_id,
            operator_pause(command.objective),
            replies,
            0,
        ),
        GoalCommandAction::Resume => resume_found_steps(ctx, command.resume_reason, true, identity.owner, replies, 0),
        GoalCommandAction::Cancel => cancel_found_steps(ctx, command.task_id, replies, 0),
    }
}

pub open spec fn help_admission() -> GoalAdmission {
    GoalAdmission {
        task_id: None,
        status: TaskStatus::Running,
        message: label("goal-command-help"),
        continuation_reason: None,
        continue_goal: false,
    }
}

fn help() -> (r: GoalAdmission)
    ensures
        r == help_admission(),
{
    GoalAdmission {
        task_id: None,
        status: TaskStatus::Running,
        message: msg("goal-command-help"),
        continuation_reason: None,
        continue_goal: false,
    }
}

fn run_command(
    ctx: &GoalAdmissionContext,
    command: &GoalCommand,
    policy: &GoalPolicy,
    identity: &GoalIdentity,
    replies: &Vec<GoalReply>,
) -> (r: Step<GoalAdmission>)
    ensures
        seen(r) == command_steps(*ctx, *command, *policy, *identity, replies@),
{
    match command.action {
        GoalCommandAction::Help => Step::Ready(help(), 0),
        GoalCommandAction::Start => match &command.objective {
            None => Step::Fail(GoalError::new(msg("goal-command-error-missing-objective"))),
            Some(objective) => {
                let (token_limit, cost_limit_usd) = resolve_goal_limits(policy, command.budgets);
                start_goal(ctx, objective, token_limit, cost_limit_usd, true, identity, replies, 0)
            },
        },
        GoalCommandAction::Objective => match &command.objective {
            None => Step::Fail(GoalError::new(msg("goal-command-error-missing-objective"))),
            Some(objective) => update_goal_objective(ctx, objective, replies, 0),
        },
        GoalCommandAction::Status => status_goal(ctx, clone_opt(&command.task_id), replies, 0),
        GoalCommandAction::Budget => update_goal_budget(ctx, command.budgets, true, &identity.owner, replies, 0),
        GoalCommandAction::Pause => pause_goal_for_blocker(
            ctx,
            clone_opt(&command.task_id),
            operator_pause_state(&command.objective),
            replies,
            0,
        ),
        GoalCommandAction::Resume => resume_goal(ctx, &command.resume_reason, true, &identity.owner, replies, 0),
        GoalCommandAction::Cancel => cancel_goal(ctx, clone_opt(&command.task_id), replies, 0),
    }
}

/// Binds the live turn to a goal that continues, where there is a live turn. A
/// binding that is reserved is left to whoever holds the reservation.
pub open spec fn bound(
    admission: GoalAdmission,
    in_scope: bool,
    reserved: bool,
    replies: Seq<GoalReply>,
    from: usize,
) -> StepView<()> {
    if !admission.continue_goal || !in_scope || reserved {
        StepView::Ready((), from)
    } else {
        match admission.task_id {
            None => StepView::Fail(failure(Text::Fixed("continuing goal admission returned no exact task id"))),
            Some(id) => match applied_reply(GoalRequest::Bind(id), None, replies, from) {
                StepView::Ask(request) => StepView::Ask(request),
                StepView::Fail(error) => StepView::Fail(error),
                StepView::Ready(did, next) => if did {
                    StepView::Ready((), next)
                } else {
                    StepView::Fail(failure(Text::Fixed("goal admission could not bind its exact live task")))
                },
            },
        }
    }
}

fn bind(
    admission: &GoalAdmission,
    in_scope: bool,
    reserved: bool,
    replies: &Vec<GoalReply>,
    from: usize,
) -> (r: Step<()>)
    ensures
        seen(r) == bound(*admission, in_scope, reserved, replies@, from),
{
    if !admission.continue_goal || !in_scope || reserved {
        return Step::Ready((), from);
    }
    match &admission.task_id {
        None => Step::Fail(
            GoalError::new(Text::Fixed("continuing goal admission returned no exact task id")),
        ),
        Some(id) => match await_applied(GoalRequest::Bind(id.clone()), None, replies, from) {
            Step::Ask(request) => Step::Ask(request),
            Step::Fail(error) => Step::Fail(error),
            Step::Ready(did, next) => if did {
                Step::Ready((), next)
            } else {
                Step::Fail(GoalError::new(Text::Fixed("goal admission could not bind its exact live task")))
            },
        },
    }
}

/// Admitting a command under a configuration: policy first, for every command
/// and before anything is read; then the command, the binding, the update.
pub open spec fn admit_steps(
    ctx: GoalAdmissionContext,
    command: GoalCommand,
    policy: GoalPolicy,
    agent: Option<AgentPolicy>,
    channel_owned: bool,
    control_plane: bool,
    in_scope: bool,
    reserved: bool,
    identity: GoalIdentity,
    replies: Seq<GoalReply>,
) -> StepView<GoalAdmission> {
    match policy_error(ctx, policy, agent, channel_owned) {
        Some(error) => StepView::Fail(error),
        None => if command.action is Help {
            StepView::Ready(help_admission(), 0)
        } else if !control_plane {
            StepView::Fail(failure(label("goal-command-error-control-plane-unavailable")))
        } else {
            match command_steps(ctx, command, policy, identity, replies) {
                StepView::Ask(request) => StepView::Ask(request),
                StepView::Fail(error) => StepView::Fail(error),
                StepView::Ready(admission, next) => match bound(admission, in_scope, reserved, replies, next) {
                    StepView::Ask(request) => StepView::Ask(request),
                    StepView::Fail(error) => StepView::Fail(error),
                    StepView::Ready(_, next) => match published(admission, replies, next) {
                        StepView::Ask(request) => StepView::Ask(request),
                        StepView::Fail(error) => StepView::Fail(error),
                        StepView::Ready(_, next) => StepView::Ready(admission, next),
                    },
                },
            }
        },
    }
}

/// The configuration that counts, and what it says of the agent: the live one
/// if there is one; the fallback otherwise, with its own entry for the agent
/// before the one that was handed over.
pub open spec fn effective_agent(
    live: Option<GoalPolicy>,
    fallback: GoalPolicy,
    fallback_agent: Option<AgentPolicy>,
    alias: Seq<char>,
) -> Option<AgentPolicy> {
    match live {
        Some(policy) => entry(policy, alias),
        None => match entry(fallback, alias) {
            Some(agent) => Some(agent),
            None => fallback_agent,
        },
    }
}

/// The entry of an agent in a configuration.
pub open spec fn entry(policy: GoalPolicy, alias: Seq<char>) -> Option<AgentPolicy> {
    let at = agent_position(policy.agents@, alias, 0);
    if at < policy.agents@.len() {
        Some(policy.agents@[at])
    } else {
        None
    }
}

/// Admits a command: the next step, given the replies so far.
///
/// `live` is the configuration as it is now, if it can be had; `fallback` and
/// `fallback_agent` count otherwise. `channel_owned` is what the one that counts
/// says of the channel on which a goal would continue. `control_plane` says
/// whether there are stores to talk to, `in_scope` whether a turn is live, and
/// `reserved` whether a reservation holds the binding of that turn: it binds
/// the goal itself once the command has gone through.
pub fn admit_goal_command(
    ctx: &GoalAdmissionContext,
    command: &GoalCommand,
    live: &Option<GoalPolicy>,
    fallback: &GoalPolicy,
    fallback_agent: Option<&AgentPolicy>,
    channel_owned: bool,
    control_plane: bool,
    in_scope: bool,
    reserved: bool,
    identity: &GoalIdentity,
    replies: &Vec<GoalReply>,
) -> (r: Step<GoalAdmission>)
    ensures
        seen(r) == admit_steps(
            *ctx,
            *command,
            match *live {
                Some(policy) => policy,
                None => *fallback,
            },
            effective_agent(
                *live,
                *fallback,
                match fallback_agent {
                    Some(agent) => Some(*agent),
                    None => None,
                },
                ctx.agent_alias@,
            ),
            channel_owned,
            control_plane,
            in_scope,
            reserved,
            *identity,
            replies@,
        ),
{
    let policy = match live {
        Some(policy) => policy,
        None => fallback,
    };
    let agent = match live {
        Some(policy) => policy.agent(ctx.agent_alias.as_str()),
        None => match fallback.agent(ctx.agent_alias.as_str()) {
            Some(agent) => Some(agent),
            None => fallback_agent,
        },
    };
    match ensure_goal_admitted_by_config(ctx, policy, agent, channel_owned) {
        Err(error) => {
            return Step::Fail(error);
        },
        Ok(()) => {},
    }
    if command.action == GoalCommandAction::Help {
        return Step::Ready(help(), 0);
    }
    if !control_plane {
        return Step::Fail(GoalError::new(msg("goal-command-error-control-plane-unavailable")));
    }
    let (admission, next) = match run_command(ctx, command, policy, identity, replies) {
        Step::Ask(request) => {
            return Step::Ask(request);
        },
        Step::Fail(error) => {
            return Step::Fail(error);
        },
        Step::Ready(admission, next) => (admission, next),
    };
    let next = match bind(&admission, in_scope, reserved, replies, next) {
        Step::Ask(request) => {
            return Step::Ask(request);
        },
        Step::Fail(error) => {
            return Step::Fail(error);
        },
        Step::Ready((), next) => next,
    };
    match publish(&admission, replies, next) {
        Step::Ask(request) => Step::Ask(request),
        Step::Fail(error) => Step::Fail(error),
        Step::Ready((), next) => Step::Ready(admission, next),
    }
}

/// A command that the configuration does not admit fails for that reason and
/// asks for nothing, whatever the command is.
pub proof fn law_policy_comes_first(
    ctx: GoalAdmissionContext,
    command: GoalCommand,
    policy: GoalPolicy,
    agent: Option<AgentPolicy>,
    channel_owned: bool,
    control_plane: bool,
    in_scope: bool,
    reserved: bool,
    identity: GoalIdentity,
    replies: Seq<GoalReply>,
)
    requires
        policy_error(ctx, policy, agent, channel_owned) is Some,
    ensures
        admit_steps(ctx, command, policy, agent, channel_owned, control_plane, in_scope, reserved, identity, replies) == StepView::<
            GoalAdmission,
        >::Fail(policy_error(ctx, policy, agent, channel_owned)->Some_0),
{
}

/// A command lets a goal continue only where the goal runs now, by its exact
/// id, and only a start, a resume or a lifted budget does.
pub proof fn law_only_running_goals_continue(
    ctx: GoalAdmissionContext,
    command: GoalCommand,
    policy: GoalPolicy,
    agent: Option<AgentPolicy>,
    channel_owned: bool,
    control_plane: bool,
    in_scope: bool,
    reserved: bool,
    identity: GoalIdentity,
    replies: Seq<GoalReply>,
    admission: GoalAdmission,
    used: usize,
)
    requires
        admit_steps(ctx, command, policy, agent, channel_owned, control_plane, in_scope, reserved, identity, replies) == StepView::Ready(
            admission,
            used,
        ),
        admission.continue_goal,
    ensures
        admission.status is Running,
        admission.task_id is Some,
        command.action is Start || command.action is Resume || command.action is Budget,
{
}

/// While a reservation holds the binding of the turn, a command asks for no
/// binding and cannot fail for want of one: once it has gone through, all that
/// is left is to show what it led to.
pub proof fn law_reserved_turn_is_left_to_its_reservation(
    ctx: GoalAdmissionContext,
    command: GoalCommand,
    policy: GoalPolicy,
    agent: Option<AgentPolicy>,
    channel_owned: bool,
    control_plane: bool,
    in_scope: bool,
    identity: GoalIdentity,
    replies: Seq<GoalReply>,
)
    ensures
        !(admit_steps(ctx, command, policy, agent, channel_owned, control_plane, in_scope, true, identity, replies) matches StepView::Ask(
            GoalRequest::Bind(_),
        )),
        policy_error(ctx, policy, agent, channel_owned) is None && control_plane && !(command.action is Help) ==> {
            let admitted = admit_steps(ctx, command, policy, agent, channel_owned, control_plane, in_scope, true, identity, replies);
            match command_steps(ctx, command, policy, identity, replies) {
                StepView::Ask(request) => admitted == StepView::<GoalAdmission>::Ask(request),
                StepView::Fail(error) => admitted == StepView::<GoalAdmission>::Fail(error),
                StepView::Ready(admission, next) => match published(admission, replies, next) {
                    StepView::Ask(request) => admitted == StepView::<GoalAdmission>::Ask(request),
                    StepView::Fail(error) => admitted == StepView::<GoalAdmission>::Fail(error),
                    StepView::Ready(_, used) => admitted == StepView::Ready(admission, used),
                },
            }
        },
{
}

} // verus!
