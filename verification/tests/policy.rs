//! What the configuration lets goals do.
use zeroclaw_runtime::error::GoalError;
use zeroclaw_runtime::goal::command::{GoalBudgetOverrides, GoalBudgetValue};
use zeroclaw_runtime::goal::context::{CommandSurface, GoalAdmissionContext};
use zeroclaw_runtime::goal::policy::{
    enabled_goal_channels, ensure_goal_admitted_by_config, goal_channel_type, goal_continuation_channel,
    goal_control_binding_is_allowed,
    goal_ids_revoked_by_config, resolve_goal_limits, ActiveGoalControlBinding, AgentPolicy, ChannelPolicy, GoalPolicy,
};
use zeroclaw_runtime::goal_task::{TaskContinuationContext, TaskContinuationConversationScope};
use zeroclaw_runtime::message::{msg, msg1, plain, Text};
use zeroclaw_runtime::usd::Usd;

fn usd(value: f64) -> Usd {
    Usd { bits: value.to_bits() }
}

fn test_policy() -> GoalPolicy {
    GoalPolicy {
        enabled: true,
        allowed_command_surfaces: vec!["channel".into()],
        allowed_channel_types: vec!["matrix".into()],
        token_budget: None,
        cost_budget_usd: None,
        verifier_enabled: false,
        agents: vec![AgentPolicy { alias: "agent-a".into(), enabled: true, goal_enabled: true }],
        channels: vec![ChannelPolicy {
            channel_type: "matrix".into(),
            alias: "default".into(),
            owning_agent: Some("agent-a".into()),
            enabled: true,
        }],
    }
}

fn continuation(channel: &str) -> TaskContinuationContext {
    TaskContinuationContext {
        channel: channel.into(),
        channel_alias: Some("default".into()),
        reply_target: "test-room".into(),
        sender: "test-operator".into(),
        thread_ts: None,
        interruption_scope_id: None,
        conversation_scope: TaskContinuationConversationScope::ReplyTarget,
    }
}

fn test_goal_context(agent: &str) -> GoalAdmissionContext {
    GoalAdmissionContext::new(agent.into())
        .with_channel_type(Some("matrix".into()))
        .with_continuation_context(Some(continuation("matrix")))
}

fn binding(task_id: &str, agent: &str, channel: &str) -> ActiveGoalControlBinding {
    ActiveGoalControlBinding {
        task_id: task_id.into(),
        agent: agent.into(),
        continuation_context: Some(continuation(channel)),
    }
}

fn refusal(ctx: &GoalAdmissionContext, policy: &GoalPolicy) -> GoalError {
    ensure_goal_admitted_by_config(ctx, policy, policy.agent("agent-a"), true).unwrap_err()
}

#[test]
fn goal_policy_rejects_disabled_global_and_agent_config() {
    let ctx = test_goal_context("agent-a");
    let mut config = test_policy();
    config.enabled = false;
    let err = ensure_goal_admitted_by_config(&ctx, &config, None, true).unwrap_err();
    assert_eq!(err, GoalError::new(msg("goal-command-error-disabled")));

    config.enabled = true;
    config.agents[0].goal_enabled = false;
    assert_eq!(refusal(&ctx, &config), GoalError::new(msg("goal-command-error-agent-disabled")));

    config.agents[0].goal_enabled = true;
    config.agents[0].enabled = false;
    assert_eq!(refusal(&ctx, &config), GoalError::new(msg("goal-command-error-agent-disabled")));
}

#[test]
fn goal_policy_rejects_disallowed_surface_and_channel_type() {
    let mut config = test_policy();
    config.allowed_command_surfaces = vec!["web".into()];
    let ctx = test_goal_context("agent-a");
    assert_eq!(
        refusal(&ctx, &config),
        GoalError::new(msg1("goal-command-error-surface-disabled", "surface", Text::Fixed("channel")))
    );

    config.allowed_command_surfaces = vec!["channel".into()];
    config.allowed_channel_types = vec!["telegram".into()];
    assert_eq!(
        refusal(&ctx, &config),
        GoalError::new(msg1(
            "goal-command-error-channel-disabled",
            "channel_type",
            Text::Trimmed(Box::new(plain("matrix"))),
        ))
    );

    let missing_channel_type = test_goal_context("agent-a").with_channel_type(None);
    assert_eq!(
        refusal(&missing_channel_type, &config),
        GoalError::new(msg("goal-command-error-channel-type-missing"))
    );
}

#[test]
fn goal_policy_wants_the_exact_channel_binding() {
    let mut config = test_policy();
    let ctx = test_goal_context("agent-a");
    assert_eq!(ensure_goal_admitted_by_config(&ctx, &config, config.agent("agent-a"), true), Ok(()));
    let refused = GoalError::new(msg1(
        "goal-command-error-channel-binding-disabled",
        "channel_type",
        Text::Trimmed(Box::new(plain("matrix"))),
    ));
    assert_eq!(
        ensure_goal_admitted_by_config(&ctx, &config, config.agent("agent-a"), false),
        Err(refused.copy())
    );
    assert_eq!(refusal(&test_goal_context("agent-a").with_continuation_context(None), &config), refused);

    let spaced = test_goal_context("agent-a").with_channel_type(Some(" matrix\t".into()));
    assert_eq!(goal_continuation_channel(&spaced), Some(("matrix", "default")));
    assert_eq!(goal_continuation_channel(&test_goal_context("agent-a").with_channel_type(Some(" ".into()))), None);
    assert_eq!(goal_continuation_channel(&test_goal_context("agent-a").with_continuation_context(None)), None);

    config.allowed_command_surfaces.push("web".into());
    let web = test_goal_context("agent-a").with_command_surface(CommandSurface::Named("web".into()));
    assert_eq!(ensure_goal_admitted_by_config(&web, &config, config.agent("agent-a"), false), Ok(()));
    assert_eq!(
        ensure_goal_admitted_by_config(&web, &config, config.agent("stranger"), false),
        Err(GoalError::new(msg("goal-command-error-agent-disabled")))
    );
}

#[test]
fn live_policy_binding_revokes_global_agent_surface_and_channel_scopes() {
    let mut bound = binding("goal-a", "agent-a", "matrix");
    assert!(goal_control_binding_is_allowed(&bound, &test_policy()));

    let mut revoked = test_policy();
    revoked.enabled = false;
    assert!(!goal_control_binding_is_allowed(&bound, &revoked));

    let mut revoked = test_policy();
    revoked.agents[0].goal_enabled = false;
    assert!(!goal_control_binding_is_allowed(&bound, &revoked));

    let mut revoked = test_policy();
    revoked.agents[0].enabled = false;
    assert!(!goal_control_binding_is_allowed(&bound, &revoked));

    let mut revoked = test_policy();
    revoked.allowed_command_surfaces = vec!["web".into()];
    assert!(!goal_control_binding_is_allowed(&bound, &revoked));

    let mut revoked = test_policy();
    revoked.allowed_channel_types = vec!["telegram".into()];
    assert!(!goal_control_binding_is_allowed(&bound, &revoked));

    let mut revoked = test_policy();
    revoked.channels.clear();
    assert!(!goal_control_binding_is_allowed(&bound, &revoked));

    let mut revoked = test_policy();
    revoked.channels[0].enabled = false;
    assert!(!goal_control_binding_is_allowed(&bound, &revoked));

    let mut revoked = test_policy();
    revoked.agents.push(AgentPolicy { alias: "agent-b".into(), enabled: true, goal_enabled: true });
    revoked.channels[0].owning_agent = Some("agent-b".into());
    assert!(!goal_control_binding_is_allowed(&bound, &revoked));

    bound.continuation_context = None;
    assert!(!goal_control_binding_is_allowed(&bound, &test_policy()));
}

/// The policy that allows both goals below.
fn shared_policy() -> GoalPolicy {
    let mut policy = test_policy();
    policy.allowed_channel_types.push("telegram".into());
    policy.agents.push(AgentPolicy { alias: "agent-b".into(), enabled: true, goal_enabled: true });
    policy.channels.push(ChannelPolicy {
        channel_type: "telegram".into(),
        alias: "default".into(),
        owning_agent: Some("agent-b".into()),
        enabled: true,
    });
    policy
}

/// Cancels what a policy revokes among the goals that are still active.
fn revoke(goals: &mut Vec<(ActiveGoalControlBinding, bool)>, policy: &GoalPolicy) -> Vec<String> {
    let active = goals
        .iter()
        .filter(|(_, running)| *running)
        .map(|(goal, _)| ActiveGoalControlBinding {
            task_id: goal.task_id.clone(),
            agent: goal.agent.clone(),
            continuation_context: goal.continuation_context.as_ref().map(|context| context.copy()),
        })
        .collect();
    let revoked = goal_ids_revoked_by_config(&active, policy);
    for (goal, running) in goals {
        *running = *running && !revoked.contains(&goal.task_id);
    }
    revoked
}

#[test]
fn policy_revocation_cancels_each_revoked_scope_and_never_revives_it() {
    let mut global = shared_policy();
    global.enabled = false;
    let mut agent_goal = shared_policy();
    agent_goal.agents[0].goal_enabled = false;
    let mut agent_disabled = shared_policy();
    agent_disabled.agents[0].enabled = false;
    let mut surface = shared_policy();
    surface.allowed_command_surfaces = vec!["web".into()];
    let mut channel_type = shared_policy();
    channel_type.allowed_channel_types = vec!["telegram".into()];
    let mut channel_removed = shared_policy();
    channel_removed.channels.remove(0);
    let mut channel_disabled = shared_policy();
    channel_disabled.channels[0].enabled = false;
    // A channel that no agent owns, or more than one, has no owner.
    let mut channel_ownership = shared_policy();
    channel_ownership.channels[0].owning_agent = None;

    for (revoked, reaches_all) in [
        (global, true),
        (agent_goal, false),
        (agent_disabled, false),
        (surface, true),
        (channel_type, false),
        (channel_removed, false),
        (channel_disabled, false),
        (channel_ownership, false),
    ] {
        let mut goals = vec![
            (binding("target", "agent-a", "matrix"), true),
            (binding("unaffected", "agent-b", "telegram"), true),
        ];
        assert!(revoke(&mut goals, &shared_policy()).is_empty());
        let cancelled = revoke(&mut goals, &revoked);
        assert!(cancelled.iter().any(|task_id| task_id == "target"));
        assert!(!goals[0].1);
        assert_eq!(goals[1].1, !reaches_all);
        assert!(
            revoke(&mut goals, &shared_policy()).iter().all(|task_id| task_id != "target"),
            "re-enabling policy must not revive or re-transition a cancelled goal"
        );
        assert!(!goals[0].1);
    }
}

#[test]
fn limits_come_from_the_command_or_else_from_the_configuration() {
    let mut policy = test_policy();
    policy.token_budget = Some(25_000);
    policy.cost_budget_usd = Some(usd(2.0));
    assert_eq!(resolve_goal_limits(&policy, GoalBudgetOverrides::default()), (Some(25_000), Some(usd(2.0))));
    let overrides = GoalBudgetOverrides {
        token_limit: GoalBudgetValue::Unlimited,
        cost_limit_usd: GoalBudgetValue::Limited(usd(0.5)),
    };
    assert_eq!(resolve_goal_limits(&policy, overrides), (None, Some(usd(0.5))));
}

#[test]
fn channels_are_found_by_type_and_alias() {
    assert_eq!(goal_channel_type("matrix:room"), "matrix");
    assert_eq!(goal_channel_type("matrix"), "matrix");
    let channels = enabled_goal_channels(&shared_policy());
    let references: Vec<&str> = channels.iter().map(|c| c.reference.as_str()).collect();
    assert_eq!(references, vec!["matrix.default", "telegram.default"]);
    assert_eq!(channels[1].owner, "agent-b");
}
