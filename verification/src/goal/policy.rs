//! Which commands a configuration admits, and which goals it lets run on.
use vstd::prelude::*;
#[allow(unused_imports)]
use vstd::string::*;

use super::command::{GoalBudgetOverrides, GoalBudgetValue};
use super::context::{CommandSurface, GoalAdmissionContext};
use crate::error::{failure, GoalError};
use crate::goal_task::TaskContinuationContext;
use crate::message::{label, message1, msg, msg1, Text};
use crate::text::{blank, is_blank, join, mark_position, same_text, split_at_mark, trim, trimmed};
use crate::usd::Usd;

verus! {

/// What a configuration says of an agent.
#[derive(Debug, PartialEq, Eq)]
pub struct AgentPolicy {
    pub alias: String,
    pub enabled: bool,
    pub goal_enabled: bool,
}

/// What a configuration says of a channel.
#[derive(Debug, PartialEq, Eq)]
pub struct ChannelPolicy {
    pub channel_type: String,
    pub alias: String,
    pub owning_agent: Option<String>,
    pub enabled: bool,
}

/// What a configuration says of goals.
#[derive(Debug, PartialEq, Eq)]
pub struct GoalPolicy {
    pub enabled: bool,
    pub allowed_command_surfaces: Vec<String>,
    pub allowed_channel_types: Vec<String>,
    pub token_budget: Option<u64>,
    pub cost_budget_usd: Option<Usd>,
    pub verifier_enabled: bool,
    pub agents: Vec<AgentPolicy>,
    pub channels: Vec<ChannelPolicy>,
}

/// A channel that goals may use: its reference, and the agent that owns it.
#[derive(Debug, PartialEq, Eq)]
pub struct EnabledChannel {
    pub reference: String,
    pub owner: String,
}

/// An active goal, and where it continues.
#[derive(Debug, PartialEq, Eq)]
pub struct ActiveGoalControlBinding {
    pub task_id: String,
    pub agent: String,
    pub continuation_context: Option<TaskContinuationContext>,
}

/// Some entry of a list equals `word` once it is trimmed.
pub open spec fn lists(entries: Seq<String>, word: Seq<char>) -> bool {
    exists|i: int| 0 <= i < entries.len() && trimmed((#[trigger] entries[i])@) == word
}

fn is_listed(entries: &Vec<String>, word: &str) -> (r: bool)
    ensures
        r == lists(entries@, word@),
{
    let mut i: usize = 0;
    while i < entries.len()
        invariant
            i <= entries.len(),
            forall|j: int| 0 <= j < i ==> trimmed((#[trigger] entries@[j])@) != word@,
        decreases entries.len() - i,
    {
        if same_text(trim(entries[i].as_str()), word) {
            return true;
        }
        i = i + 1;
    }
    false
}

/// Position of an agent's entry, or their number.
pub open spec fn agent_position(agents: Seq<AgentPolicy>, alias: Seq<char>, from: int) -> int
    decreases agents.len() - from,
{
    if from < 0 || from >= agents.len() {
        agents.len() as int
    } else if agents[from].alias@ == alias {
        from
    } else {
        agent_position(agents, alias, from + 1)
    }
}

/// The agent is there, is enabled, and may have goals.
pub open spec fn agent_admits(agents: Seq<AgentPolicy>, alias: Seq<char>) -> bool {
    let at = agent_position(agents, alias, 0);
    at < agents.len() && agents[at].enabled && agents[at].goal_enabled
}

/// A channel's reference: type, dot, alias.
pub open spec fn reference(channel_type: Seq<char>, alias: Seq<char>) -> Seq<char> {
    channel_type + "."@ + alias
}

/// The owner of the enabled channel with that reference; the last entry counts.
pub open spec fn channel_owner(channels: Seq<ChannelPolicy>, wanted: Seq<char>) -> Option<Seq<char>>
    decreases channels.len(),
{
    if channels.len() == 0 {
        None
    } else {
        let last = channels.last();
        if last.enabled && last.owning_agent is Some && reference(last.channel_type@, last.alias@) == wanted {
            Some(last.owning_agent->Some_0@)
        } else {
            channel_owner(channels.drop_last(), wanted)
        }
    }
}

/// The owner that a list of enabled channels gives for a reference; the last
/// entry counts.
pub open spec fn listed_owner(enabled: Seq<EnabledChannel>, wanted: Seq<char>) -> Option<Seq<char>>
    decreases enabled.len(),
{
    if enabled.len() == 0 {
        None
    } else if enabled.last().reference@ == wanted {
        Some(enabled.last().owner@)
    } else {
        listed_owner(enabled.drop_last(), wanted)
    }
}

impl GoalPolicy {
    /// The entry of an agent.
    pub fn agent(&self, alias: &str) -> (r: Option<&AgentPolicy>)
        ensures
            match r {
                Some(agent) => agent_position(self.agents@, alias@, 0) < self.agents@.len() && *agent
                    == self.agents@[agent_position(self.agents@, alias@, 0)],
                None => agent_position(self.agents@, alias@, 0) == self.agents@.len(),
            },
    {
        let mut i: usize = 0;
        while i < self.agents.len()
            invariant
                i <= self.agents.len(),
                agent_position(self.agents@, alias@, 0) == agent_position(self.agents@, alias@, i as int),
            decreases self.agents.len() - i,
        {
            if same_text(self.agents[i].alias.as_str(), alias) {
                return Some(&self.agents[i]);
            }
            i = i + 1;
        }
        None
    }
}

/// The limits of a new goal.
pub open spec fn resolved_limits(policy: GoalPolicy, budgets: GoalBudgetOverrides) -> (Option<u64>, Option<Usd>) {
    (chosen(budgets.token_limit, policy.token_budget), chosen(budgets.cost_limit_usd, policy.cost_budget_usd))
}

/// What a command chooses over what applies otherwise.
pub open spec fn chosen<T>(value: GoalBudgetValue<T>, otherwise: Option<T>) -> Option<T> {
    match value {
        GoalBudgetValue::Default => otherwise,
        GoalBudgetValue::Unlimited => None,
        GoalBudgetValue::Limited(limit) => Some(limit),
    }
}

pub fn choose_tokens(value: GoalBudgetValue<u64>, otherwise: Option<u64>) -> (r: Option<u64>)
    ensures
        r == chosen(value, otherwise),
{
    match value {
        GoalBudgetValue::Default => otherwise,
        GoalBudgetValue::Unlimited => None,
        GoalBudgetValue::Limited(limit) => Some(limit),
    }
}

pub fn choose_cost(value: GoalBudgetValue<Usd>, otherwise: Option<Usd>) -> (r: Option<Usd>)
    ensures
        r == chosen(value, otherwise),
{
    match value {
        GoalBudgetValue::Default => otherwise,
        GoalBudgetValue::Unlimited => None,
        GoalBudgetValue::Limited(limit) => Some(limit),
    }
}

pub fn resolve_goal_limits(policy: &GoalPolicy, budgets: GoalBudgetOverrides) -> (r: (Option<u64>, Option<Usd>))
    ensures
        r == resolved_limits(*policy, budgets),
{
    (
        choose_tokens(budgets.token_limit, policy.token_budget),
        choose_cost(budgets.cost_limit_usd, policy.cost_budget_usd),
    )
}

// ---------------------------------------------------------------- admission
/// What the configuration says of the agent that gives a command: its own
/// entry, or none.
pub open spec fn agent_refused(agent: Option<AgentPolicy>) -> bool {
    match agent {
        Some(agent) => !agent.enabled || !agent.goal_enabled,
        None => true,
    }
}

/// A channel type that says something.
pub open spec fn named_type(channel_type: Option<String>) -> bool {
    channel_type matches Some(name) && !blank(name@)
}

/// A channel type as it is shown.
pub open spec fn type_text(channel_type: Option<String>) -> Text {
    Text::Trimmed(Box::new(Text::Plain(channel_type->Some_0)))
}

/// The channel on which a goal would continue, its type and its alias.
pub open spec fn continuing_channel(ctx: GoalAdmissionContext) -> Option<(Seq<char>, Seq<char>)> {
    if named_type(ctx.channel_type) {
        match ctx.continuation_context {
            Some(context) => match context.channel_alias {
                Some(alias) => Some((trimmed(ctx.channel_type->Some_0@), alias@)),
                None => None,
            },
            None => None,
        }
    } else {
        None
    }
}

/// The type and the alias of the channel on which a goal would continue. A
/// command on a channel is admitted only if this is an enabled channel of the
/// agent, which the configuration knows.
pub fn goal_continuation_channel<'a>(ctx: &'a GoalAdmissionContext) -> (r: Option<(&'a str, &'a str)>)
    ensures
        match r {
            Some((channel_type, alias)) => continuing_channel(*ctx) == Some((channel_type@, alias@)),
            None => continuing_channel(*ctx) is None,
        },
{
    match (&ctx.channel_type, &ctx.continuation_context) {
        (Some(channel_type), Some(context)) => match &context.channel_alias {
            Some(alias) => if is_blank(channel_type.as_str()) {
                None
            } else {
                Some((trim(channel_type.as_str()), alias.as_str()))
            },
            None => None,
        },
        _ => None,
    }
}

/// Why a configuration does not admit a command, the first reason that holds.
pub open spec fn policy_error(
    ctx: GoalAdmissionContext,
    policy: GoalPolicy,
    agent: Option<AgentPolicy>,
    channel_owned: bool,
) -> Option<GoalError> {
    if !policy.enabled {
        Some(failure(label("goal-command-error-disabled")))
    } else if agent_refused(agent) {
        Some(failure(label("goal-command-error-agent-disabled")))
    } else if !lists(policy.allowed_command_surfaces@, ctx.command_surface.name()) {
        Some(failure(message1("goal-command-error-surface-disabled", "surface", ctx.command_surface.text())))
    } else if !(ctx.command_surface is Channel) {
        None
    } else if !named_type(ctx.channel_type) {
        Some(failure(label("goal-command-error-channel-type-missing")))
    } else if !lists(policy.allowed_channel_types@, trimmed(ctx.channel_type->Some_0@)) {
        Some(
            failure(
                message1("goal-command-error-channel-disabled", "channel_type", type_text(ctx.channel_type)),
            ),
        )
    } else if continuing_channel(ctx) is None || !channel_owned {
        Some(
            failure(
                message1(
                    "goal-command-error-channel-binding-disabled",
                    "channel_type",
                    type_text(ctx.channel_type),
                ),
            ),
        )
    } else {
        None
    }
}

/// Whether a configuration admits a command. `channel_owned` is what it says
/// of the channel on which a goal would continue: that it is enabled and
/// belongs to the agent.
pub fn ensure_goal_admitted_by_config(
    ctx: &GoalAdmissionContext,
    policy: &GoalPolicy,
    agent: Option<&AgentPolicy>,
    channel_owned: bool,
) -> (r: Result<(), GoalError>)
    ensures
        match policy_error(
            *ctx,
            *policy,
            match agent {
                Some(agent) => Some(*agent),
                None => None,
            },
            channel_owned,
        ) {
            Some(error) => r == Err::<(), GoalError>(error),
            None => r == Ok::<(), GoalError>(()),
        },
{
    if !policy.enabled {
        return Err(GoalError::new(msg("goal-command-error-disabled")));
    }
    let agent_allowed = match agent {
        Some(agent) => agent.enabled && agent.goal_enabled,
        None => false,
    };
    if !agent_allowed {
        return Err(GoalError::new(msg("goal-command-error-agent-disabled")));
    }
    if !is_listed(&policy.allowed_command_surfaces, ctx.command_surface.as_str()) {
        return Err(
            GoalError::new(msg1("goal-command-error-surface-disabled", "surface", ctx.command_surface.as_text())),
        );
    }
    match &ctx.command_surface {
        CommandSurface::Channel => {},
        CommandSurface::Named(_) => {
            return Ok(());
        },
    }
    let channel_type = match &ctx.channel_type {
        Some(name) => name,
        None => {
            return Err(GoalError::new(msg("goal-command-error-channel-type-missing")));
        },
    };
    if is_blank(channel_type.as_str()) {
        return Err(GoalError::new(msg("goal-command-error-channel-type-missing")));
    }
    let wanted = trim(channel_type.as_str());
    if !is_listed(&policy.allowed_channel_types, wanted) {
        let shown = Text::Trimmed(Box::new(Text::Plain(channel_type.clone())));
        return Err(GoalError::new(msg1("goal-command-error-channel-disabled", "channel_type", shown)));
    }
    let exact = goal_continuation_channel(ctx).is_some() && channel_owned;
    if !exact {
        let shown = Text::Trimmed(Box::new(Text::Plain(channel_type.clone())));
        return Err(GoalError::new(msg1("goal-command-error-channel-binding-disabled", "channel_type", shown)));
    }
    Ok(())
}

// ---------------------------------------------------------------- revocation
/// The type of a channel: what comes before a colon.
pub open spec fn type_of_channel(channel: Seq<char>) -> Seq<char> {
    channel.take(mark_position(channel, ':'))
}

pub fn goal_channel_type(channel: &str) -> (r: &str)
    ensures
        r@ == type_of_channel(channel@),
{
    match split_at_mark(channel, ':') {
        Some((channel_type, _)) => channel_type,
        None => {
            assert(channel@.take(channel@.len() as int) =~= channel@);
            channel
        },
    }
}

proof fn lemma_listed_owner_push(enabled: Seq<EnabledChannel>, entry: EnabledChannel, wanted: Seq<char>)
    ensures
        listed_owner(enabled.push(entry), wanted) == (if entry.reference@ == wanted {
            Some(entry.owner@)
        } else {
            listed_owner(enabled, wanted)
        }),
{
    assert(enabled.push(entry).drop_last() =~= enabled);
}

/// The channels that goals may use.
pub fn enabled_goal_channels(policy: &GoalPolicy) -> (r: Vec<EnabledChannel>)
    ensures
        forall|wanted: Seq<char>| #[trigger] listed_owner(r@, wanted) == channel_owner(policy.channels@, wanted),
{
    let mut out: Vec<EnabledChannel> = Vec::new();
    let mut i: usize = 0;
    assert(policy.channels@.take(0) =~= Seq::<ChannelPolicy>::empty());
    while i < policy.channels.len()
        invariant
            i <= policy.channels.len(),
            forall|wanted: Seq<char>| #[trigger]
                listed_owner(out@, wanted) == channel_owner(policy.channels@.take(i as int), wanted),
        decreases policy.channels.len() - i,
    {
        let channel = &policy.channels[i];
        let ghost longer = policy.channels@.take(i + 1);
        let ghost before = out@;
        assert(longer.drop_last() =~= policy.channels@.take(i as int));
        assert(longer.last() == *channel);
        match &channel.owning_agent {
            Some(owner) => {
                if channel.enabled {
                    let mut name = join(channel.channel_type.as_str(), ".");
                    name.append(channel.alias.as_str());
                    let entry = EnabledChannel { reference: name, owner: owner.clone() };
                    let ghost pushed = entry;
                    out.push(entry);
                    assert forall|wanted: Seq<char>| #[trigger]
                        listed_owner(out@, wanted) == channel_owner(longer, wanted) by {
                        lemma_listed_owner_push(before, pushed, wanted);
                        assert(listed_owner(before, wanted) == channel_owner(longer.drop_last(), wanted));
                    }
                }
            },
            None => {},
        }
        assert forall|wanted: Seq<char>| #[trigger] listed_owner(out@, wanted) == channel_owner(longer, wanted) by {
            if out@ == before {
                assert(listed_owner(before, wanted) == channel_owner(longer.drop_last(), wanted));
            }
        }
        i = i + 1;
    }
    assert(policy.channels@.take(i as int) =~= policy.channels@);
    out
}

fn owner_in_list(enabled: &Vec<EnabledChannel>, wanted: &str, agent: &str) -> (r: bool)
    ensures
        r == (listed_owner(enabled@, wanted@) == Some(agent@)),
{
    let mut i: usize = enabled.len();
    assert(enabled@.take(i as int) =~= enabled@);
    while i > 0
        invariant
            i <= enabled.len(),
            listed_owner(enabled@, wanted@) == listed_owner(enabled@.take(i as int), wanted@),
        decreases i,
    {
        let ghost prefix = enabled@.take(i as int);
        i = i - 1;
        assert(prefix.last() == enabled@[i as int]);
        assert(prefix.drop_last() =~= enabled@.take(i as int));
        if same_text(enabled[i].reference.as_str(), wanted) {
            return same_text(enabled[i].owner.as_str(), agent);
        }
    }
    false
}

/// The channel on which a goal continues belongs to its agent.
pub open spec fn binding_owned(
    enabled: Seq<EnabledChannel>,
    agent: Seq<char>,
    channel_type: Seq<char>,
    context: TaskContinuationContext,
) -> bool {
    context.channel_alias matches Some(alias) && listed_owner(enabled, reference(channel_type, alias@)) == Some(agent)
}

pub fn goal_channel_binding_is_allowed(
    agent_alias: &str,
    channel_type: &str,
    context: &TaskContinuationContext,
    enabled_channels: &Vec<EnabledChannel>,
) -> (r: bool)
    ensures
        r == binding_owned(enabled_channels@, agent_alias@, channel_type@, *context),
{
    match &context.channel_alias {
        Some(alias) => {
            let mut wanted = join(channel_type, ".");
            wanted.append(alias.as_str());
            owner_in_list(enabled_channels, wanted.as_str(), agent_alias)
        },
        None => false,
    }
}

/// The goal may run on: goals and its agent are enabled, channels may give
/// commands, and the channel on which it continues is of an allowed type and
/// belongs to its agent.
pub open spec fn may_run_on(
    binding: ActiveGoalControlBinding,
    policy: GoalPolicy,
    enabled: Seq<EnabledChannel>,
) -> bool {
    &&& policy.enabled
    &&& agent_admits(policy.agents@, binding.agent@)
    &&& lists(policy.allowed_command_surfaces@, "channel"@)
    &&& binding.continuation_context matches Some(context) && {
        let channel_type = type_of_channel(trimmed(context.channel@));
        &&& channel_type.len() > 0
        &&& lists(policy.allowed_channel_types@, channel_type)
        &&& binding_owned(enabled, binding.agent@, channel_type, context)
    }
}

pub fn goal_control_binding_is_allowed_with_channels(
    binding: &ActiveGoalControlBinding,
    policy: &GoalPolicy,
    enabled_channels: &Vec<EnabledChannel>,
) -> (r: bool)
    ensures
        r == may_run_on(*binding, *policy, enabled_channels@),
{
    if !policy.enabled {
        return false;
    }
    let agent_allowed = match policy.agent(binding.agent.as_str()) {
        Some(agent) => agent.enabled && agent.goal_enabled,
        None => false,
    };
    if !agent_allowed {
        return false;
    }
    if !is_listed(&policy.allowed_command_surfaces, "channel") {
        return false;
    }
    match &binding.continuation_context {
        None => false,
        Some(context) => {
            let channel_type = goal_channel_type(trim(context.channel.as_str()));
            channel_type.unicode_len() != 0 && is_listed(&policy.allowed_channel_types, channel_type)
                && goal_channel_binding_is_allowed(
                binding.agent.as_str(),
                channel_type,
                context,
                enabled_channels,
            )
        },
    }
}

pub fn goal_control_binding_is_allowed(binding: &ActiveGoalControlBinding, policy: &GoalPolicy) -> (r: bool)
    ensures
        r == allowed(*binding, *policy),
{
    let enabled = enabled_goal_channels(policy);
    proof {
        lemma_same_owners(*binding, *policy, enabled@);
    }
    goal_control_binding_is_allowed_with_channels(binding, policy, &enabled)
}

/// The goal may run on under a configuration.
pub open spec fn allowed(binding: ActiveGoalControlBinding, policy: GoalPolicy) -> bool {
    &&& policy.enabled
    &&& agent_admits(policy.agents@, binding.agent@)
    &&& lists(policy.allowed_command_surfaces@, "channel"@)
    &&& binding.continuation_context matches Some(context) && {
        let channel_type = type_of_channel(trimmed(context.channel@));
        &&& channel_type.len() > 0
        &&& lists(policy.allowed_channel_types@, channel_type)
        &&& context.channel_alias matches Some(alias) && channel_owner(
            policy.channels@,
            reference(channel_type, alias@),
        ) == Some(binding.agent@)
    }
}

proof fn lemma_same_owners(binding: ActiveGoalControlBinding, policy: GoalPolicy, enabled: Seq<EnabledChannel>)
    requires
        forall|wanted: Seq<char>| #[trigger] listed_owner(enabled, wanted) == channel_owner(policy.channels@, wanted),
    ensures
        may_run_on(binding, policy, enabled) == allowed(binding, policy),
{
}

/// The ids of the goals that a configuration does not let run on, in order.
pub open spec fn revoked_ids(bindings: Seq<ActiveGoalControlBinding>, policy: GoalPolicy) -> Seq<String>
    decreases bindings.len(),
{
    if bindings.len() == 0 {
        Seq::empty()
    } else if allowed(bindings.last(), policy) {
        revoked_ids(bindings.drop_last(), policy)
    } else {
        revoked_ids(bindings.drop_last(), policy).push(bindings.last().task_id)
    }
}

/// The goals that a configuration does not let run on.
pub fn goal_ids_revoked_by_config(bindings: &Vec<ActiveGoalControlBinding>, policy: &GoalPolicy) -> (r: Vec<String>)
    ensures
        r@ == revoked_ids(bindings@, *policy),
{
    let enabled = enabled_goal_channels(policy);
    let mut out: Vec<String> = Vec::new();
    let mut i: usize = 0;
    assert(bindings@.take(0) =~= Seq::<ActiveGoalControlBinding>::empty());
    while i < bindings.len()
        invariant
            i <= bindings.len(),
            forall|wanted: Seq<char>| #[trigger]
                listed_owner(enabled@, wanted) == channel_owner(policy.channels@, wanted),
            out@ == revoked_ids(bindings@.take(i as int), *policy),
        decreases bindings.len() - i,
    {
        let ghost longer = bindings@.take(i + 1);
        assert(longer.drop_last() =~= bindings@.take(i as int));
        assert(longer.last() == bindings@[i as int]);
        proof {
            lemma_same_owners(bindings@[i as int], *policy, enabled@);
        }
        if !goal_control_binding_is_allowed_with_channels(&bindings[i], policy, &enabled) {
            out.push(bindings[i].task_id.clone());
        }
        i = i + 1;
    }
    assert(bindings@.take(i as int) =~= bindings@);
    out
}

// ---------------------------------------------------------------- laws
/// Each of the switches alone revokes every goal it covers: goals as a whole,
/// the agent, the surface, the type of channel, the channel itself, and the
/// binding to it.
pub proof fn law_each_switch_revokes(binding: ActiveGoalControlBinding, policy: GoalPolicy)
    requires
        ({
            ||| !policy.enabled
            ||| !agent_admits(policy.agents@, binding.agent@)
            ||| !lists(policy.allowed_command_surfaces@, "channel"@)
            ||| binding.continuation_context is None
            ||| binding.continuation_context->Some_0.channel_alias is None
            ||| !lists(
                policy.allowed_channel_types@,
                type_of_channel(trimmed(binding.continuation_context->Some_0.channel@)),
            )
            ||| channel_owner(
                policy.channels@,
                reference(
                    type_of_channel(trimmed(binding.continuation_context->Some_0.channel@)),
                    binding.continuation_context->Some_0.channel_alias->Some_0@,
                ),
            ) != Some(binding.agent@)
        }),
    ensures
        !allowed(binding, policy),
{
}

/// What admission lets in, revocation lets stay: a goal that was admitted on a
/// channel may run on under the same configuration, where its list of channels
/// bears out what it says of that channel.
pub proof fn law_admitted_goal_may_run_on(
    ctx: GoalAdmissionContext,
    policy: GoalPolicy,
    channel_owned: bool,
    binding: ActiveGoalControlBinding,
)
    requires
        ctx.command_surface is Channel,
        agent_position(policy.agents@, ctx.agent_alias@, 0) < policy.agents@.len(),
        policy_error(
            ctx,
            policy,
            Some(policy.agents@[agent_position(policy.agents@, ctx.agent_alias@, 0)]),
            channel_owned,
        ) is None,
        channel_owned ==> (continuing_channel(ctx) matches Some((channel_type, alias)) && channel_owner(
            policy.channels@,
            reference(channel_type, alias),
        ) == Some(ctx.agent_alias@)),
        binding.agent@ == ctx.agent_alias@,
        binding.continuation_context == ctx.continuation_context,
        type_of_channel(trimmed(ctx.continuation_context->Some_0.channel@)) == trimmed(ctx.channel_type->Some_0@),
    ensures
        allowed(binding, policy),
{
}

} // verus!
