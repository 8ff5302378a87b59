//! What a configuration lets goals do.
use vstd::prelude::*;
#[allow(unused_imports)]
use vstd::string::*;

use super::admission::effective_agent;
use super::answers::{limit_after, refusal};
use super::command::GoalBudgetOverrides;
use super::context::{CommandSurface, GoalAdmissionContext};
use super::policy::{
    agent_admits, agent_position, allowed, channel_owner, continuing_channel, lists, policy_error, resolved_limits,
    revoked_ids, ActiveGoalControlBinding, AgentPolicy, ChannelPolicy, GoalPolicy,
};
use crate::error::GoalError;
use crate::message::{Args, Text};
use crate::text::{mark_position, trimmed};

verus! {

/// A refusal that shows something.
pub open spec fn shown_refusal(key: &'static str, name: &'static str, shown: Text) -> Option<GoalError> {
    Some(GoalError { text: Text::Message(key, Box::new(Args::Arg(name, shown, Box::new(Args::End)))), cause: None })
}

pub open spec fn listed(entries: Seq<String>, word: Seq<char>) -> bool {
    exists|i: int| 0 <= i < entries.len() && trimmed((#[trigger] entries[i])@) == word
}

/// A command is admitted where goals are enabled, its agent is known, enabled
/// and may have goals, and its surface is allowed; on a channel also its type
/// is allowed, and it is an enabled channel of the agent on which the goal can
/// continue. It is refused for the first of these that fails.
#[verifier::spinoff_prover]
pub proof fn law_which_commands_are_admitted(
    ctx: GoalAdmissionContext,
    policy: GoalPolicy,
    agent: Option<AgentPolicy>,
    owned: bool,
)
    ensures
        ({
            let refused = policy_error(ctx, policy, agent, owned);
            let named = ctx.command_surface matches CommandSurface::Named(_);
            let surface = match ctx.command_surface {
                CommandSurface::Named(name) => name@,
                CommandSurface::Channel => "channel"@,
            };
            let typed = ctx.channel_type matches Some(name) && trimmed(name@).len() > 0;
            let shown_type = Text::Trimmed(Box::new(Text::Plain(ctx.channel_type->Some_0)));
            let continues = ctx.continuation_context matches Some(context) && context.channel_alias is Some;
            if !policy.enabled {
                refused == Some(refusal("goal-command-error-disabled"))
            } else if !(agent matches Some(agent) && agent.enabled && agent.goal_enabled) {
                refused == Some(refusal("goal-command-error-agent-disabled"))
            } else if !listed(policy.allowed_command_surfaces@, surface) {
                refused == shown_refusal(
                    "goal-command-error-surface-disabled",
                    "surface",
                    match ctx.command_surface {
                        CommandSurface::Named(name) => Text::Plain(name),
                        CommandSurface::Channel => Text::Fixed("channel"),
                    },
                )
            } else if named {
                refused is None
            } else if !typed {
                refused == Some(refusal("goal-command-error-channel-type-missing"))
            } else if !listed(policy.allowed_channel_types@, trimmed(ctx.channel_type->Some_0@)) {
                refused == shown_refusal("goal-command-error-channel-disabled", "channel_type", shown_type)
            } else if !continues || !owned {
                refused == shown_refusal("goal-command-error-channel-binding-disabled", "channel_type", shown_type)
            } else {
                refused is None
            }
        }),
{
    assert(forall|entries: Seq<String>, word: Seq<char>| #[trigger] listed(entries, word) == lists(entries, word));
}

/// The channel that the configuration is asked about is of the command's type,
/// without white space around it, under the alias that the goal would continue
/// on.
pub proof fn law_which_channel_is_asked_about(ctx: GoalAdmissionContext)
    ensures
        match continuing_channel(ctx) {
            Some((channel_type, alias)) => {
                &&& ctx.channel_type matches Some(name) && channel_type == trimmed(name@) && channel_type.len() > 0
                &&& ctx.continuation_context matches Some(context) && (context.channel_alias matches Some(has) && has@
                    == alias)
            },
            None => {
                ||| ctx.channel_type is None
                ||| trimmed(ctx.channel_type->Some_0@).len() == 0
                ||| ctx.continuation_context is None
                ||| ctx.continuation_context->Some_0.channel_alias is None
            },
        },
{
}

/// A new goal has the limits that its command gives, and for each that it does
/// not mention the one of the configuration.
pub proof fn law_limits_of_a_new_goal(policy: GoalPolicy, budgets: GoalBudgetOverrides)
    ensures
        limit_after(budgets.token_limit, policy.token_budget, resolved_limits(policy, budgets).0),
        limit_after(budgets.cost_limit_usd, policy.cost_budget_usd, resolved_limits(policy, budgets).1),
{
}

proof fn lemma_agent(agents: Seq<AgentPolicy>, alias: Seq<char>, from: int)
    requires
        0 <= from <= agents.len(),
    ensures
        ({
            let at = agent_position(agents, alias, from);
            &&& from <= at <= agents.len()
            &&& at < agents.len() ==> agents[at].alias@ == alias
            &&& forall|i: int| from <= i < at ==> (#[trigger] agents[i]).alias@ != alias
        }),
    decreases agents.len() - from,
{
    if from < agents.len() {
        lemma_agent(agents, alias, from + 1);
    }
}

/// An agent may have goals if its entry, the first under its alias, is enabled
/// for itself and for goals.
pub proof fn law_which_agents_may_have_goals(agents: Seq<AgentPolicy>, alias: Seq<char>)
    ensures
        agent_admits(agents, alias) == exists|i: int|
            0 <= i < agents.len() && (#[trigger] agents[i]).alias@ == alias && agents[i].enabled
                && agents[i].goal_enabled && forall|j: int| 0 <= j < i ==> (#[trigger] agents[j]).alias@ != alias,
{
    lemma_agent(agents, alias, 0);
    let at = agent_position(agents, alias, 0);
    if agent_admits(agents, alias) {
        assert(agents[at].alias@ == alias);
    }
    if exists|i: int|
        0 <= i < agents.len() && (#[trigger] agents[i]).alias@ == alias && agents[i].enabled && agents[i].goal_enabled
            && forall|j: int| 0 <= j < i ==> (#[trigger] agents[j]).alias@ != alias {
        let i = choose|i: int|
            0 <= i < agents.len() && (#[trigger] agents[i]).alias@ == alias && agents[i].enabled
                && agents[i].goal_enabled && forall|j: int| 0 <= j < i ==> (#[trigger] agents[j]).alias@ != alias;
        assert(i == at);
    }
}

/// The live configuration is the one that counts, also for what it says of the
/// agent; without one the fallback does, and what was handed over counts only
/// where it says nothing.
pub proof fn law_which_agent_entry_counts(
    live: Option<GoalPolicy>,
    fallback: GoalPolicy,
    handed: Option<AgentPolicy>,
    alias: Seq<char>,
)
    ensures
        ({
            let entry = effective_agent(live, fallback, handed, alias);
            let policy = match live {
                Some(policy) => policy,
                None => fallback,
            };
            let at = agent_position(policy.agents@, alias, 0);
            if at < policy.agents@.len() {
                entry == Some(policy.agents@[at])
            } else if live is Some {
                entry is None
            } else {
                entry == handed
            }
        }),
{
}

/// The owner of a channel is the agent of its last enabled entry that has one.
pub proof fn law_who_owns_a_channel(front: Seq<ChannelPolicy>, last: ChannelPolicy, wanted: Seq<char>)
    ensures
        channel_owner(Seq::<ChannelPolicy>::empty(), wanted) is None,
        channel_owner(front.push(last), wanted) == (if last.enabled && last.owning_agent is Some && wanted
            == last.channel_type@ + seq!['.'] + last.alias@ {
            Some(last.owning_agent->Some_0@)
        } else {
            channel_owner(front, wanted)
        }),
{
    reveal_strlit(".");
    assert("."@ =~= seq!['.']);
    assert(front.push(last).drop_last() =~= front);
}

/// A goal may run on exactly where goals and its agent are enabled, channels
/// may give commands, and the channel on which it continues is of an allowed
/// type and belongs to its agent.
pub proof fn law_which_goals_may_run_on(binding: ActiveGoalControlBinding, policy: GoalPolicy)
    ensures
        allowed(binding, policy) == (policy.enabled && agent_admits(policy.agents@, binding.agent@) && listed(
            policy.allowed_command_surfaces@,
            "channel"@,
        ) && (binding.continuation_context matches Some(context) && (context.channel_alias matches Some(alias) && {
            let named = trimmed(context.channel@);
            let channel_type = named.take(mark_position(named, ':'));
            channel_type.len() > 0 && listed(policy.allowed_channel_types@, channel_type) && channel_owner(
                policy.channels@,
                channel_type + seq!['.'] + alias@,
            ) == Some(binding.agent@)
        }))),
{
    reveal_strlit(".");
    assert("."@ =~= seq!['.']);
    assert(forall|entries: Seq<String>, word: Seq<char>| #[trigger] listed(entries, word) == lists(entries, word));
}

/// The goals that are revoked are those that may not run on, each by its id, in
/// their order.
pub proof fn law_which_goals_are_revoked(
    front: Seq<ActiveGoalControlBinding>,
    last: ActiveGoalControlBinding,
    policy: GoalPolicy,
)
    ensures
        revoked_ids(Seq::<ActiveGoalControlBinding>::empty(), policy) == Seq::<String>::empty(),
        revoked_ids(front.push(last), policy) == (if allowed(last, policy) {
            revoked_ids(front, policy)
        } else {
            revoked_ids(front, policy).push(last.task_id)
        }),
{
    assert(front.push(last).drop_last() =~= front);
}

} // verus!
