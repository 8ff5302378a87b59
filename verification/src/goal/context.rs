//! Who gives a command, and what it led to.
use vstd::prelude::*;
#[allow(unused_imports)]
use vstd::string::*;

use crate::goal_task::{copy_continuation, TaskContinuationContext};
use crate::message::{message1, message2, msg1, msg2, Text};
use crate::task::TaskStatus;
use crate::text::clone_opt;

verus! {

/// Where a command was given.
#[derive(Debug, PartialEq, Eq)]
pub enum CommandSurface {
    Channel,
    /// Another surface of the command catalogue, by its name.
    Named(String),
}

impl CommandSurface {
    /// The name of the surface.
    pub open spec fn name(self) -> Seq<char> {
        match self {
            CommandSurface::Channel => "channel"@,
            CommandSurface::Named(name) => name@,
        }
    }

    pub open spec fn text(self) -> Text {
        match self {
            CommandSurface::Channel => Text::Fixed("channel"),
            CommandSurface::Named(name) => Text::Plain(name),
        }
    }

    pub fn as_str(&self) -> (r: &str)
        ensures
            r@ == self.name(),
    {
        match self {
            CommandSurface::Channel => "channel",
            CommandSurface::Named(name) => name.as_str(),
        }
    }

    pub fn as_text(&self) -> (r: Text)
        ensures
            r == self.text(),
    {
        match self {
            CommandSurface::Channel => Text::Fixed("channel"),
            CommandSurface::Named(name) => Text::Plain(name.clone()),
        }
    }

    pub fn copy(&self) -> (r: CommandSurface)
        ensures
            r == *self,
    {
        match self {
            CommandSurface::Channel => CommandSurface::Channel,
            CommandSurface::Named(name) => CommandSurface::Named(name.clone()),
        }
    }
}

/// Who gives a command, from where, and for which goal.
#[derive(Debug, PartialEq, Eq)]
pub struct GoalAdmissionContext {
    pub agent_alias: String,
    pub command_surface: CommandSurface,
    pub channel_type: Option<String>,
    pub originator_route: Option<String>,
    pub principal_id: Option<String>,
    /// Route under which an older release stored goals of this speaker.
    pub legacy_originator_route: Option<String>,
    /// Principal under which an older release stored goals of this speaker.
    pub legacy_principal_id: Option<String>,
    /// The exact goal that this context works for.
    pub goal_task_id: Option<String>,
    pub continuation_context: Option<TaskContinuationContext>,
}

/// What a command led to.
#[derive(Debug, PartialEq, Eq)]
pub struct GoalAdmission {
    pub task_id: Option<String>,
    pub status: TaskStatus,
    pub message: Text,
    pub continuation_reason: Option<String>,
    /// The goal runs now and wants a turn.
    pub continue_goal: bool,
}

/// What a turn of a goal led to.
#[derive(Debug, PartialEq, Eq)]
#[allow(inconsistent_fields)]
pub enum GoalTurnEvaluation {
    Completed { task_id: String, message: Text },
    Continue { task_id: String, objective: String, notes: Text, message: Text },
    Paused { task_id: String, message: Text },
}

/// What is shown to the people who follow a goal.
#[derive(Debug, PartialEq, Eq)]
pub enum GoalStateUpdateEvent {
    /// Replaces or appends a visible status.
    Status(Text),
    /// Shown while the verifier is at work.
    VerifierStarted(Text),
}

/// The update that an admission publishes.
pub open spec fn update_of(admission: GoalAdmission) -> GoalStateUpdateEvent {
    GoalStateUpdateEvent::Status(message1("channel-goal-state-update", "message", admission.message))
}

pub fn publish_goal_state_update(admission: &GoalAdmission) -> (r: GoalStateUpdateEvent)
    ensures
        r == update_of(*admission),
{
    GoalStateUpdateEvent::Status(msg1("channel-goal-state-update", "message", admission.message.copy()))
}

/// The update that a verification publishes when it starts.
pub open spec fn verifying(task_id: String, budget: Text) -> GoalStateUpdateEvent {
    GoalStateUpdateEvent::VerifierStarted(
        message2("goal-command-verifying", "task_id", Text::Plain(task_id), "budget", budget),
    )
}

pub fn publish_goal_verifier_started(task_id: &String, budget: Text) -> (r: GoalStateUpdateEvent)
    ensures
        r == verifying(*task_id, budget),
{
    GoalStateUpdateEvent::VerifierStarted(
        msg2("goal-command-verifying", "task_id", Text::Plain(task_id.clone()), "budget", budget),
    )
}

/// A context that knows only its agent.
pub open spec fn fresh_context(agent_alias: String) -> GoalAdmissionContext {
    GoalAdmissionContext {
        agent_alias,
        command_surface: CommandSurface::Channel,
        channel_type: None,
        originator_route: None,
        principal_id: None,
        legacy_originator_route: None,
        legacy_principal_id: None,
        goal_task_id: None,
        continuation_context: None,
    }
}

impl GoalAdmissionContext {
    pub fn new(agent_alias: String) -> (r: GoalAdmissionContext)
        ensures
            r == fresh_context(agent_alias),
    {
        GoalAdmissionContext {
            agent_alias,
            command_surface: CommandSurface::Channel,
            channel_type: None,
            originator_route: None,
            principal_id: None,
            legacy_originator_route: None,
            legacy_principal_id: None,
            goal_task_id: None,
            continuation_context: None,
        }
    }

    pub fn with_command_surface(self, command_surface: CommandSurface) -> (r: GoalAdmissionContext)
        ensures
            r == (GoalAdmissionContext { command_surface, ..self }),
    {
        let mut context = self;
        context.command_surface = command_surface;
        context
    }

    pub fn with_channel_type(self, channel_type: Option<String>) -> (r: GoalAdmissionContext)
        ensures
            r == (GoalAdmissionContext { channel_type, ..self }),
    {
        let mut context = self;
        context.channel_type = channel_type;
        context
    }

    pub fn with_originator_route(self, route: Option<String>) -> (r: GoalAdmissionContext)
        ensures
            r == (GoalAdmissionContext { originator_route: route, ..self }),
    {
        let mut context = self;
        context.originator_route = route;
        context
    }

    pub fn with_principal_id(self, principal_id: Option<String>) -> (r: GoalAdmissionContext)
        ensures
            r == (GoalAdmissionContext { principal_id, ..self }),
    {
        let mut context = self;
        context.principal_id = principal_id;
        context
    }

    pub fn with_legacy_identity(self, originator_route: Option<String>, principal_id: Option<String>) -> (r:
        GoalAdmissionContext)
        ensures
            r == (GoalAdmissionContext {
                legacy_originator_route: originator_route,
                legacy_principal_id: principal_id,
                ..self
            }),
    {
        let mut context = self;
        context.legacy_originator_route = originator_route;
        context.legacy_principal_id = principal_id;
        context
    }

    pub fn with_goal_task_id(self, goal_task_id: Option<String>) -> (r: GoalAdmissionContext)
        ensures
            r == (GoalAdmissionContext { goal_task_id, ..self }),
    {
        let mut context = self;
        context.goal_task_id = goal_task_id;
        context
    }

    pub fn with_continuation_context(self, context: Option<TaskContinuationContext>) -> (r: GoalAdmissionContext)
        ensures
            r == (GoalAdmissionContext { continuation_context: context, ..self }),
    {
        let mut this = self;
        this.continuation_context = context;
        this
    }

    /// The same context again.
    pub fn copy(&self) -> (r: GoalAdmissionContext)
        ensures
            r == *self,
    {
        GoalAdmissionContext {
            agent_alias: self.agent_alias.clone(),
            command_surface: self.command_surface.copy(),
            channel_type: clone_opt(&self.channel_type),
            originator_route: clone_opt(&self.originator_route),
            principal_id: clone_opt(&self.principal_id),
            legacy_originator_route: clone_opt(&self.legacy_originator_route),
            legacy_principal_id: clone_opt(&self.legacy_principal_id),
            goal_task_id: clone_opt(&self.goal_task_id),
            continuation_context: copy_continuation(&self.continuation_context),
        }
    }
}

} // verus!
