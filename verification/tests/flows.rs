//! Commands and turns, worked off against tables, a ledger and a verifier.
use zeroclaw_runtime::error::GoalError;
use zeroclaw_runtime::goal::admission::admit_goal_command;
use zeroclaw_runtime::goal::binding::{
    bind_current_goal_task, current_goal_start_tool_batch_requested, current_goal_task_binding_is_reserved,
    current_goal_turn_evaluation_marker, current_goal_turn_evaluation_requested,
    ensure_current_goal_task_binding_available, mark_current_goal_turn_for_evaluation,
    reserve_current_goal_task_binding, scope_goal_start_tool_batch, GoalRuntimeScope, TurnMarkers,
};
use zeroclaw_runtime::goal::budget::{formatted_cost, goal_budget_summary, CostTracking, GoalBudgetUnavailableCause, GoalUsageTotals, TrackerState};
use zeroclaw_runtime::goal::command::{
    parse_goal_command, GoalBudgetOverrides, GoalBudgetValue, GoalCommand,
};
use zeroclaw_runtime::goal::context::{
    publish_goal_state_update, publish_goal_verifier_started, GoalAdmission, GoalAdmissionContext,
    GoalStateUpdateEvent, GoalTurnEvaluation,
};
use zeroclaw_runtime::goal::evaluation::{
    admit_goal_autonomous_turn, complete_goal_after_verification, evaluate_goal_turn_with_verifier,
    pause_current_goal_for_human_gate, pause_goal_for_accounting_failure, pause_running_goal_for_interruption,
};
use zeroclaw_runtime::goal::flow::{Asked, GoalReply, GoalRequest, LedgerAccess, Step, VerifierOutcome};
use zeroclaw_runtime::goal::lifecycle::{
    cancel_goal, cancel_resolved_goal, is_active_goal_context_conflict, pause_goal_for_blocker,
    pause_goal_for_resolved_task_with_budget, resume_goal, resume_resolved_goal, start_goal, status_goal,
    update_goal_budget, update_goal_objective, GoalIdentity, GoalOwner,
};
use zeroclaw_runtime::goal::policy::{goal_continuation_channel, resolve_goal_limits, AgentPolicy, ChannelPolicy, GoalPolicy};
use zeroclaw_runtime::goal::visibility::resolve_goal;
use zeroclaw_runtime::goal_task::{
    GoalBlocker, GoalBlockerKind, GoalPauseReason, GoalPauseState, GoalTaskRecord, TaskContinuationContext,
    TaskContinuationConversationScope, TaskGoal,
};
use zeroclaw_runtime::message::{msg, msg1, msg2, msg3, msg4, plain, Args, Text};
use zeroclaw_runtime::payload::Json;
use zeroclaw_runtime::recovery::{recovered_goal_continuation_blocked_pause, RecoveredGoalContinuationBlocker};
use zeroclaw_runtime::store::error::StoreError;
use zeroclaw_runtime::store::{TaskRow, TaskStore};
use zeroclaw_runtime::task::{TaskKind, TaskRecord, TaskStatus};
use zeroclaw_runtime::usd::Usd;

fn usd(value: f64) -> Usd {
    Usd { bits: value.to_bits() }
}

/// Everything that a command may ask about.
struct World {
    store: TaskStore,
    configured: bool,
    usage: Option<GoalUsageTotals>,
    tracking: CostTracking,
    ledger: Option<TrackerState>,
    verdict: Option<VerifierOutcome>,
    /// What happens while the verifier is at work.
    meanwhile: Option<fn(&mut World)>,
    /// The ledger is not open yet.
    ledger_closed: bool,
    /// Someone asked for a ledger that takes entries.
    ledger_opened: bool,
    /// The boot under which commands are given.
    boot_id: String,
    bound: Vec<String>,
    published: Vec<GoalStateUpdateEvent>,
    asked: usize,
}

fn world(configured: bool) -> World {
    World {
        store: TaskStore::new(),
        configured,
        usage: Some(GoalUsageTotals::default()),
        tracking: CostTracking { enabled: false, tracker: None },
        ledger: Some(TrackerState { enabled: false, healthy: true }),
        verdict: None,
        meanwhile: None,
        ledger_closed: false,
        ledger_opened: false,
        boot_id: "boot-a".into(),
        bound: Vec::new(),
        published: Vec::new(),
        asked: 0,
    }
}

impl World {
    fn row(&mut self, id: &str) -> Option<&mut TaskRow> {
        self.store.rows.iter_mut().find(|row| row.task.id == id)
    }

    fn status(&mut self, id: &str) -> TaskStatus {
        self.row(id).unwrap().task.status
    }

    fn goal(&self, id: &str) -> GoalTaskRecord {
        self.store.get_goal_task(id).unwrap()
    }

    fn write_pause(&mut self, id: &str, pause: Option<GoalPauseState>) {
        let goal = self.row(id).unwrap().goal.as_mut().unwrap();
        match pause {
            Some(pause) => {
                goal.pause_reason = Some(pause.reason);
                goal.pause_description = pause.description;
                goal.blockers = pause.blockers;
            }
            None => {
                goal.pause_reason = None;
                goal.pause_description = None;
                goal.blockers = Vec::new();
            }
        }
    }

    fn answer(&mut self, request: Asked) -> GoalReply {
        self.asked += 1;
        match request {
            GoalRequest::ReadTask(id) => GoalReply::Task(self.row(&id).map(|row| row.task.copy())),
            GoalRequest::LatestActive { agent, route, principal } => GoalReply::Task(
                self.store.latest_active_goal_for_context(&agent, route.as_deref(), principal.as_deref()),
            ),
            GoalRequest::ReadGoal(id) => GoalReply::Goal(self.store.get_goal_task(&id)),
            GoalRequest::ReadContinuation(id) => {
                GoalReply::Continuation(self.store.get_continuation_context(id).unwrap())
            }
            GoalRequest::Rebind { task_id, from_route, from_principal, to_route, to_principal } => {
                let task = &mut self.row(&task_id).unwrap().task;
                let matches = task.originator_route == Some(from_route) && task.principal_id == Some(from_principal);
                if matches {
                    task.originator_route = Some(to_route);
                    task.principal_id = Some(to_principal);
                }
                GoalReply::Applied(matches)
            }
            GoalRequest::ReadUsage { access, .. } => {
                self.ledger_opened |= access == LedgerAccess::Writable;
                let readable = self.ledger_opened || !self.ledger_closed;
                GoalReply::Usage(if self.configured && readable { self.usage } else { None })
            }
            GoalRequest::ReadTracking => {
                GoalReply::Tracking(if self.configured { Some(self.tracking) } else { None })
            }
            GoalRequest::ReadLedger => GoalReply::Ledger(if self.configured { self.ledger } else { None }),
            GoalRequest::PauseIfStatus { task_id, expected, pause } => {
                let applied = self.status(&task_id) == expected;
                if applied {
                    self.row(&task_id).unwrap().task.status = TaskStatus::Paused;
                    self.write_pause(&task_id, Some(pause));
                }
                GoalReply::Applied(applied)
            }
            GoalRequest::ResumePaused { task_id, owner_pid, boot_id, continuation } => {
                let applied = self.status(&task_id) == TaskStatus::Paused;
                if applied {
                    let row = self.row(&task_id).unwrap();
                    row.task.status = TaskStatus::Running;
                    row.task.owner_pid = owner_pid;
                    row.task.owner_boot_id = boot_id;
                    if continuation.is_some() {
                        row.continuation = continuation;
                    }
                    self.write_pause(&task_id, None);
                }
                GoalReply::Applied(applied)
            }
            GoalRequest::CancelIfStatus { task_id, expected, reason } => {
                let row = self.row(&task_id).unwrap();
                let applied = row.task.status == expected;
                if applied {
                    row.task.status = TaskStatus::Cancelled;
                    row.error = Some(reason);
                }
                GoalReply::Applied(applied)
            }
            GoalRequest::CompleteIfLimits { task_id, token_limit, cost_limit_usd, summary: _ } => {
                let row = self.row(&task_id).unwrap();
                let goal = row.goal.as_ref().unwrap();
                let applied = row.task.status == TaskStatus::Running
                    && goal.effective_token_limit == token_limit
                    && goal.effective_cost_limit_usd == cost_limit_usd;
                if applied {
                    row.task.status = TaskStatus::Completed;
                }
                GoalReply::Applied(applied)
            }
            GoalRequest::UpdateLimits { task_id, token_limit, cost_limit_usd } => {
                match self.store.update_goal_limits(task_id, token_limit, cost_limit_usd) {
                    Ok(()) => GoalReply::Done,
                    Err(error) => GoalReply::Failed(GoalError::new(error.text())),
                }
            }
            GoalRequest::UpdateObjective { task_id, objective } => {
                self.row(&task_id).unwrap().goal.as_mut().unwrap().objective = objective;
                GoalReply::Done
            }
            GoalRequest::Create { task, goal, continuation } => {
                match self.store.create_goal(task, goal, continuation) {
                    Ok(()) => GoalReply::Done,
                    Err(error) => GoalReply::Failed(GoalError::new(error.text())),
                }
            }
            GoalRequest::Verify { .. } => {
                if let Some(event) = self.meanwhile.take() {
                    event(self);
                }
                GoalReply::Verdict(self.verdict.take().unwrap())
            }
            GoalRequest::Bind(id) => {
                self.bound.push(id);
                GoalReply::Applied(true)
            }
            GoalRequest::Publish(event) => {
                self.published.push(event);
                GoalReply::Done
            }
        }
    }

    fn run<T>(&mut self, step: impl Fn(&Vec<GoalReply>) -> Step<T>) -> Result<T, GoalError> {
        let mut replies: Vec<GoalReply> = Vec::new();
        loop {
            match step(&replies) {
                Step::Ask(request) => {
                    let reply = self.answer(request);
                    replies.push(reply);
                }
                Step::Fail(error) => return Err(error),
                Step::Ready(value, used) => {
                    assert_eq!(used, replies.len());
                    return Ok(value);
                }
            }
        }
    }

    fn owner(&self) -> GoalOwner {
        GoalOwner { pid: 7, boot_id: self.boot_id.clone() }
    }

    fn start(&mut self, ctx: &GoalAdmissionContext, objective: &str, tokens: Option<u64>, cost: Option<Usd>) -> Result<GoalAdmission, GoalError> {
        let identity = GoalIdentity::draw(1, "boot-a".into());
        let configured = self.configured;
        self.run(|replies| start_goal(ctx, &objective.to_string(), tokens, cost, configured, &identity, replies, 0))
    }

    fn started(&mut self, ctx: &GoalAdmissionContext, objective: &str, tokens: Option<u64>) -> String {
        self.start(ctx, objective, tokens, None).unwrap().task_id.unwrap()
    }

    fn pause(&mut self, ctx: &GoalAdmissionContext, id: &str, pause: GoalPauseState) -> GoalAdmission {
        self.run(|replies| pause_goal_for_blocker(ctx, Some(id.to_string()), pause.copy(), replies, 0)).unwrap()
    }

    fn resolve(&mut self, ctx: &GoalAdmissionContext, id: &str) -> TaskGoal {
        self.run(|replies| resolve_goal(ctx, Some(id.to_string()), replies, 0)).unwrap()
    }

    fn update_budget(&mut self, ctx: &GoalAdmissionContext, budgets: GoalBudgetOverrides) -> Result<GoalAdmission, GoalError> {
        let configured = self.configured;
        let owner = self.owner();
        self.run(|replies| update_goal_budget(ctx, budgets, configured, &owner, replies, 0))
    }

    fn command(&mut self, ctx: &GoalAdmissionContext, input: &str, policy: &GoalPolicy) -> Result<GoalAdmission, GoalError> {
        let command = parse(input);
        let identity = GoalIdentity::draw(1, "boot-a".into());
        self.run(|replies| {
            admit_goal_command(ctx, &command, &None, policy, None, channel_owned(ctx, policy), true, true, false, &identity, replies)
        })
    }

    fn evaluate(&mut self, ctx: &GoalAdmissionContext, verifier: bool, summary: &str) -> Option<GoalTurnEvaluation> {
        self.run(|replies| evaluate_goal_turn_with_verifier(ctx, true, verifier, &summary.to_string(), replies))
            .unwrap()
    }
}

fn parse(input: &str) -> GoalCommand {
    parse_goal_command(input, true, |text: &str| text.parse::<f64>().ok().map(usd)).unwrap()
}

/// What the configuration says of the channel on which a goal would continue.
fn channel_owned(ctx: &GoalAdmissionContext, policy: &GoalPolicy) -> bool {
    goal_continuation_channel(ctx).is_some_and(|(channel_type, alias)| {
        policy.channels.iter().any(|channel| {
            channel.enabled
                && channel.channel_type == channel_type
                && channel.alias == alias
                && channel.owning_agent.as_deref() == Some(ctx.agent_alias.as_str())
        })
    })
}

fn test_policy() -> GoalPolicy {
    GoalPolicy {
        enabled: true,
        allowed_command_surfaces: vec!["channel".into()],
        allowed_channel_types: vec!["matrix".into()],
        token_budget: None,
        cost_budget_usd: None,
        verifier_enabled: false,
        agents: vec![AgentPolicy { alias: "agent-a".into(), enabled: true, goal_enabled: true }],
        channels: vec![ChannelPolicy {
            channel_type: "matrix".into(),
            alias: "default".into(),
            owning_agent: Some("agent-a".into()),
            enabled: true,
        }],
    }
}

fn continuation(alias: &str, sender: &str) -> TaskContinuationContext {
    TaskContinuationContext {
        channel: "matrix".into(),
        channel_alias: Some(alias.into()),
        reply_target: "!room:example".into(),
        sender: sender.into(),
        thread_ts: None,
        interruption_scope_id: None,
        conversation_scope: TaskContinuationConversationScope::ReplyTarget,
    }
}

fn agent_a() -> GoalAdmissionContext {
    GoalAdmissionContext::new("agent-a".into())
}

fn owned(route: &str, principal: &str) -> GoalAdmissionContext {
    agent_a().with_originator_route(Some(route.into())).with_principal_id(Some(principal.into()))
}

fn channel_context() -> GoalAdmissionContext {
    owned("matrix:room", "principal-a")
        .with_channel_type(Some("matrix".into()))
        .with_continuation_context(Some(continuation("default", "test-operator")))
}

fn goal_row(ctx: &GoalAdmissionContext, id: &str, status: TaskStatus, goal: GoalTaskRecord) -> TaskRow {
    TaskRow {
        task: TaskRecord {
            id: id.into(),
            kind: TaskKind::Goal,
            agent: ctx.agent_alias.clone(),
            status,
            owner_pid: 1,
            owner_boot_id: "test-boot".into(),
            heartbeat_at: None,
            depth: 0,
            parent_id: None,
            originator_route: ctx.originator_route.clone(),
            delivered: false,
            idem_key: None,
            principal_id: ctx.principal_id.clone(),
            session_id: None,
            execution_epoch: 0,
            started_at: "2026-06-18T00:00:00Z".into(),
            finished_at: None,
        },
        error: None,
        goal: Some(goal),
        continuation: None,
    }
}

fn goal_of(id: &str, objective: &str, tokens: Option<u64>) -> GoalTaskRecord {
    GoalTaskRecord {
        task_id: id.into(),
        objective: objective.into(),
        effective_token_limit: tokens,
        ..GoalTaskRecord::default()
    }
}

fn blocker(kind: GoalBlockerKind, message: &str) -> GoalBlocker {
    GoalBlocker { kind, message: plain(message), payload: None }
}

fn pause_for(reason: GoalPauseReason, description: &str, blockers: Vec<GoalBlocker>) -> GoalPauseState {
    GoalPauseState { reason, description: Some(plain(description)), blockers }
}

fn budget_pause() -> GoalPauseState {
    pause_for(
        GoalPauseReason::BudgetExhausted,
        "budget exhausted",
        vec![blocker(GoalBlockerKind::Budget, "Budget exhausted")],
    )
}

fn tokens_only(value: GoalBudgetValue<u64>) -> GoalBudgetOverrides {
    GoalBudgetOverrides { token_limit: value, cost_limit_usd: GoalBudgetValue::Default }
}

fn used(tokens: u64) -> GoalUsageTotals {
    GoalUsageTotals { total_tokens: tokens, ..GoalUsageTotals::default() }
}

/// The catalogue key of a message.
fn key(text: &Text) -> &'static str {
    match text {
        Text::Message(key, _) => key,
        other => panic!("not a message: {other:?}"),
    }
}

/// An argument of a message.
fn argument<'a>(text: &'a Text, name: &str) -> &'a Text {
    if let Text::Message(_, args) = text {
        let mut args: &Args = args;
        while let Args::Arg(key, value, rest) = args {
            if *key == name {
                return value;
            }
            args = rest;
        }
    }
    panic!("no argument {name} in {text:?}")
}

#[test]
fn goal_help_is_rejected_when_goal_mode_is_disabled() {
    let ctx = channel_context();
    let mut config = test_policy();
    let mut w = world(true);

    let help = w.command(&ctx, "/goal help", &config).unwrap();
    assert_eq!(help.message, msg("goal-command-help"));
    assert!(!help.continue_goal);

    config.enabled = false;
    let error = w.command(&ctx, "/goal help", &config).unwrap_err();
    assert_eq!(error, GoalError::new(msg("goal-command-error-disabled")));
    assert_eq!(w.asked, 0);
}

#[test]
fn goal_admission_uses_live_policy_instead_of_enabled_fallback() {
    let mut disabled = test_policy();
    disabled.enabled = false;
    let identity = GoalIdentity::draw(1, "boot-a".into());
    let step = admit_goal_command(
        &channel_context(),
        &parse("/goal help"),
        &Some(disabled),
        &test_policy(),
        None,
        true,
        true,
        true,
        false,
        &identity,
        &Vec::new(),
    );
    assert_eq!(step, Step::Fail(GoalError::new(msg("goal-command-error-disabled"))));
}

#[test]
fn commands_need_a_control_plane() {
    let identity = GoalIdentity::draw(1, "boot-a".into());
    let step = admit_goal_command(
        &channel_context(),
        &parse("/goal status"),
        &None,
        &test_policy(),
        None,
        true,
        false,
        true,
        false,
        &identity,
        &Vec::new(),
    );
    assert_eq!(step, Step::Fail(GoalError::new(msg("goal-command-error-control-plane-unavailable"))));
}

#[test]
fn goal_pause_command_records_operator_pause_reason() {
    let ctx = channel_context();
    let config = test_policy();
    let mut w = world(true);

    let task_id = w
        .command(&ctx, "/goal start finish the operator pause test", &config)
        .unwrap()
        .task_id
        .expect("start returns task id");
    assert_eq!(w.bound, vec![task_id.clone()]);

    let paused = w.command(&ctx, "/goal pause maintenance window", &config).unwrap();
    assert_eq!(paused.status, TaskStatus::Paused);
    let goal = w.goal(&task_id);
    assert_eq!(goal.pause_reason, Some(GoalPauseReason::OperatorPaused));
    assert_eq!(goal.blockers[0].kind, GoalBlockerKind::OperatorPause);
    assert_eq!(goal.blockers[0].message, plain("maintenance window"));

    let status = w.command(&ctx, "/goal status", &config).unwrap();
    assert_eq!(key(&status.message), "goal-command-status-paused-blocked");
    assert_eq!(argument(&status.message, "reason"), &msg("goal-pause-reason-operator-paused"));
}

#[test]
fn disabled_goal_mode_rejects_every_goal_command() {
    let ctx = channel_context();
    let config = test_policy();
    let mut w = world(true);
    let task_id = w.command(&ctx, "/goal start retain controls", &config).unwrap().task_id.unwrap();
    let mut disabled = test_policy();
    disabled.enabled = false;
    for raw in [
        "/goal start rejected".to_string(),
        format!("/goal status {task_id}"),
        format!("/goal pause {task_id}"),
        format!("/goal resume {task_id}"),
        format!("/goal cancel {task_id}"),
        "/goal help".to_string(),
    ] {
        let error = w.command(&ctx, &raw, &disabled).unwrap_err();
        assert_eq!(error, GoalError::new(msg("goal-command-error-disabled")), "{raw}");
    }
}

#[test]
fn scoped_goal_state_update_publishes_channel_message() {
    let admission = GoalAdmission {
        task_id: Some("goal-1".into()),
        status: TaskStatus::Running,
        message: plain("Goal `goal-1` started."),
        continuation_reason: None,
        continue_goal: true,
    };
    assert_eq!(
        publish_goal_state_update(&admission),
        GoalStateUpdateEvent::Status(msg1("channel-goal-state-update", "message", plain("Goal `goal-1` started.")))
    );
}

#[test]
fn scoped_goal_verifier_start_publishes_progress_event() {
    let mut goal = goal_of("goal-1", "ship it", Some(10_000));
    goal.effective_cost_limit_usd = Some(usd(1.25));
    let budget = goal_budget_summary(&goal, None);
    assert_eq!(
        publish_goal_verifier_started(&goal.task_id, budget.copy()),
        GoalStateUpdateEvent::VerifierStarted(msg2(
            "goal-command-verifying",
            "task_id",
            plain("goal-1"),
            "budget",
            budget,
        ))
    );
}

#[test]
fn duplicate_resume_publishes_only_the_committed_controller_outcome() {
    let ctx = owned("route", "principal");
    let mut w = world(false);
    w.boot_id = "test-boot".into();
    let id = w.started(&ctx, "resume once", None);
    let running = w.resolve(&ctx, &id);
    let pause = pause_for(GoalPauseReason::OperatorPaused, "pause before duplicate resume", Vec::new());
    w.run(|replies| {
        pause_goal_for_resolved_task_with_budget(&running, pause.copy(), plain("Budget: test"), replies, 0)
    })
    .unwrap();
    let first = w.resolve(&ctx, &id);
    let duplicate = w.resolve(&ctx, &id);
    let owner = w.owner();
    let mut published: Vec<GoalStateUpdateEvent> = Vec::new();

    let committed = w.run(|replies| resume_resolved_goal(&ctx, &None, false, &owner, &first, replies, 0)).unwrap();
    assert!(committed.continue_goal);
    published.push(publish_goal_state_update(&committed));

    match w.run(|replies| resume_resolved_goal(&ctx, &None, false, &owner, &duplicate, replies, 0)) {
        Ok(admission) => published.push(publish_goal_state_update(&admission)),
        Err(error) => assert_eq!(key(&error.text), "goal-command-error-update-failed"),
    }

    published.append(&mut w.published);
    assert_eq!(published.len(), 1, "only one resume may publish");
    assert!(matches!(published[0], GoalStateUpdateEvent::Status(_)));
    assert_eq!(w.status(&id), TaskStatus::Running);
    assert_eq!(w.row(&id).unwrap().task.owner_boot_id, "test-boot");
    assert_eq!(w.row(&id).unwrap().task.owner_pid, 7);
}

#[test]
fn cancel_losing_to_terminal_transition_emits_no_controller_outcome() {
    let ctx = owned("route", "principal");
    let mut w = world(false);
    let id = w.started(&ctx, "complete before cancel", None);
    let stale = w.resolve(&ctx, &id);
    w.row(&id).unwrap().task.status = TaskStatus::Completed;

    let error = w.run(|replies| cancel_resolved_goal(&stale, replies, 0)).unwrap_err();
    assert_eq!(key(&error.text), "goal-command-error-update-failed");
    assert_eq!(w.status(&id), TaskStatus::Completed);
}

#[test]
fn stale_pause_cannot_overwrite_newer_operator_pause() {
    let ctx = owned("route", "principal");
    let mut w = world(false);
    let id = w.started(&ctx, "preserve newest pause", None);
    let stale = w.resolve(&ctx, &id);
    let newer = pause_for(GoalPauseReason::OperatorPaused, "newer operator pause", Vec::new());
    w.run(|replies| {
        pause_goal_for_resolved_task_with_budget(&stale, newer.copy(), plain("Budget: test"), replies, 0)
    })
    .unwrap();

    let late = pause_for(GoalPauseReason::BudgetUnavailable, "stale accounting pause", Vec::new());
    let error = w
        .run(|replies| {
            pause_goal_for_resolved_task_with_budget(&stale, late.copy(), plain("Budget: stale"), replies, 0)
        })
        .unwrap_err();
    assert_eq!(key(&error.text), "goal-command-error-pause-failed");
    let goal = w.goal(&id);
    assert_eq!(goal.pause_reason, Some(GoalPauseReason::OperatorPaused));
    assert_eq!(goal.pause_description, Some(plain("newer operator pause")));
}

#[test]
fn autonomous_turn_budget_gate_allows_running_goal_under_limit() {
    let ctx = owned("route", "principal");
    let mut w = world(true);
    w.usage = Some(used(999));
    w.store.rows.push(goal_row(&ctx, "goal", TaskStatus::Running, goal_of("goal", "ship it", Some(1_000))));
    assert_eq!(w.run(|replies| admit_goal_autonomous_turn(&ctx, true, replies)), Ok(None));
    assert_eq!(w.status("goal"), TaskStatus::Running);
}

#[test]
fn autonomous_turn_uses_bound_exact_task_over_newer_context_match() {
    let ctx = owned("route", "principal");
    let mut w = world(true);
    w.store.rows.push(goal_row(&ctx, "original", TaskStatus::Cancelled, goal_of("original", "finish", None)));
    w.store.rows.push(goal_row(&ctx, "newer", TaskStatus::Running, goal_of("newer", "newer replacement", None)));
    let exact = owned("route", "principal").with_goal_task_id(Some("original".into()));

    let admission = w
        .run(|replies| admit_goal_autonomous_turn(&exact, true, replies))
        .unwrap()
        .expect("the bound cancelled goal must stop its stale continuation");
    assert_eq!(admission.task_id.as_deref(), Some("original"));
    assert_eq!(admission.status, TaskStatus::Cancelled);
}

#[test]
fn autonomous_turn_budget_gate_pauses_before_next_model_turn() {
    let ctx = owned("route", "principal");
    let mut w = world(true);
    w.usage = Some(used(1_500));
    w.store.rows.push(goal_row(&ctx, "goal", TaskStatus::Running, goal_of("goal", "ship it", Some(1_000))));

    let admission = w
        .run(|replies| admit_goal_autonomous_turn(&ctx, true, replies))
        .unwrap()
        .expect("exhausted budget should block the autonomous turn");
    assert_eq!(admission.status, TaskStatus::Paused);
    assert!(!admission.continue_goal);
    assert_eq!(key(&admission.message), "goal-command-budget-exhausted");
    assert_eq!(w.status("goal"), TaskStatus::Paused);
    let goal = w.goal("goal");
    assert_eq!(goal.pause_reason, Some(GoalPauseReason::BudgetExhausted));
    assert_eq!(goal.blockers[0].kind, GoalBlockerKind::Budget);
}

#[test]
fn autonomous_turn_gate_reports_already_paused_goal() {
    let ctx = owned("route", "principal");
    let mut w = world(true);
    let mut goal = goal_of("goal", "wait for operator", None);
    goal.pause_reason = Some(GoalPauseReason::NeedsUserInput);
    goal.pause_description = Some(plain("Need operator answer"));
    goal.blockers = vec![blocker(GoalBlockerKind::NeedsUserInput, "Need operator answer")];
    w.store.rows.push(goal_row(&ctx, "goal", TaskStatus::Paused, goal));

    let admission = w
        .run(|replies| admit_goal_autonomous_turn(&ctx, true, replies))
        .unwrap()
        .expect("paused goal should stop stale autonomous continuation");
    assert_eq!(admission.status, TaskStatus::Paused);
    assert!(!admission.continue_goal);
    assert_eq!(argument(&admission.message, "reason"), &msg("goal-pause-reason-needs-user-input"));
    assert_eq!(w.status("goal"), TaskStatus::Paused);
    assert_eq!(w.goal("goal").pause_reason, Some(GoalPauseReason::NeedsUserInput));
}

#[test]
fn evaluate_goal_turn_completes_running_goal_when_verifier_disabled() {
    let ctx = owned("route", "principal");
    let mut w = world(true);
    w.store.rows.push(goal_row(&ctx, "goal", TaskStatus::Running, goal_of("goal", "ship it", None)));

    match w.evaluate(&ctx, false, "done") {
        Some(GoalTurnEvaluation::Completed { task_id, message }) => {
            assert_eq!(task_id, "goal");
            assert_eq!(key(&message), "goal-command-completed");
        }
        other => panic!("running goal should complete when verifier is disabled: {other:?}"),
    }
    assert_eq!(w.status("goal"), TaskStatus::Completed);
}

#[test]
fn evaluate_goal_turn_uses_injected_verifier() {
    let ctx = owned("route", "principal");
    let mut w = world(true);
    w.store.rows.push(goal_row(&ctx, "goal", TaskStatus::Running, goal_of("goal", "ship it", None)));
    w.verdict = Some(VerifierOutcome::Continue { notes: "CONTINUE\nstub says keep going".into() });

    match w.evaluate(&ctx, true, "not done") {
        Some(GoalTurnEvaluation::Continue { task_id, objective, notes, message }) => {
            assert_eq!(task_id, "goal");
            assert_eq!(objective, "ship it");
            assert_eq!(notes, plain("CONTINUE\nstub says keep going"));
            assert_eq!(key(&message), "goal-command-continuing");
        }
        other => panic!("stub verifier should request another autonomous turn: {other:?}"),
    }
    assert_eq!(w.status("goal"), TaskStatus::Running);
    assert!(matches!(w.published[0], GoalStateUpdateEvent::VerifierStarted(_)));
}

#[test]
fn verifier_usage_stays_with_resolved_goal_during_replacement_race() {
    let ctx = owned("route", "principal");
    let mut w = world(true);
    w.store.rows.push(goal_row(&ctx, "original", TaskStatus::Running, goal_of("original", "ship original goal", None)));
    w.verdict = Some(VerifierOutcome::Complete);
    w.meanwhile = Some(|w| {
        w.store.rows[0].task.status = TaskStatus::Cancelled;
        let ctx = owned("route", "principal");
        w.store.rows.push(goal_row(&ctx, "replacement", TaskStatus::Running, goal_of("replacement", "newer", None)));
    });

    assert!(
        w.evaluate(&ctx, true, "looks done").is_none(),
        "controller must stop after the original goal loses lifecycle ownership"
    );
    assert_eq!(w.status("original"), TaskStatus::Cancelled);
    assert_eq!(w.status("replacement"), TaskStatus::Running);
}

#[test]
fn completion_limit_cas_loss_returns_running_goal_to_continuation() {
    let ctx = owned("route", "principal");
    let mut w = world(true);
    let id = w.started(&ctx, "ship it", None);
    let stale = w.resolve(&ctx, &id);
    w.store.update_goal_limits(id.clone(), Some(1_000), None).unwrap();

    let outcome = w
        .run(|replies| {
            complete_goal_after_verification(
                &ctx,
                &stale,
                &"candidate completion".to_string(),
                Some(GoalUsageTotals::default()),
                replies,
                0,
            )
        })
        .unwrap();
    match outcome {
        Some(GoalTurnEvaluation::Continue { task_id, objective, notes, .. }) => {
            assert_eq!(task_id, id);
            assert_eq!(objective, "ship it");
            assert!(format!("{notes:?}").contains("budget changed"));
        }
        other => panic!("a limit CAS loss while Running must retain an executor: {other:?}"),
    }
    assert_eq!(w.status(&id), TaskStatus::Running);
    assert_eq!(w.goal(&id).effective_token_limit, Some(1_000));
}

#[test]
fn completion_cas_loss_to_terminal_state_stops_without_continuation() {
    let ctx = owned("route", "principal");
    let mut w = world(false);
    let id = w.started(&ctx, "ship it", None);
    let stale = w.resolve(&ctx, &id);
    w.row(&id).unwrap().task.status = TaskStatus::Cancelled;

    let outcome = w
        .run(|replies| {
            complete_goal_after_verification(
                &ctx,
                &stale,
                &"candidate completion".to_string(),
                Some(GoalUsageTotals::default()),
                replies,
                0,
            )
        })
        .unwrap();
    assert!(outcome.is_none(), "a terminal lifecycle winner must not publish a continuation");
    assert_eq!(w.status(&id), TaskStatus::Cancelled);
}

#[test]
fn evaluate_goal_turn_pauses_when_verifier_blocks_completion() {
    let ctx = owned("route", "principal");
    let mut w = world(true);
    w.store.rows.push(goal_row(&ctx, "goal", TaskStatus::Running, goal_of("goal", "ship it", None)));
    w.verdict = Some(VerifierOutcome::Blocked {
        pause: pause_for(
            GoalPauseReason::VerifierBlocked,
            "verifier requested operator review",
            vec![GoalBlocker {
                kind: GoalBlockerKind::Verifier,
                message: plain("Verifier requested operator review"),
                payload: Some(Json::Raw("{\"verdict\":\"blocked\"}".into())),
            }],
        ),
    });

    match w.evaluate(&ctx, true, "looks done") {
        Some(GoalTurnEvaluation::Paused { task_id, message }) => {
            assert_eq!(task_id, "goal");
            assert_eq!(key(&message), "goal-command-paused");
        }
        other => panic!("blocked verifier verdict must pause the goal: {other:?}"),
    }
    assert_eq!(w.status("goal"), TaskStatus::Paused);
    let goal = w.goal("goal");
    assert_eq!(goal.pause_reason, Some(GoalPauseReason::VerifierBlocked));
    assert_eq!(goal.pause_description, Some(plain("verifier requested operator review")));
    assert_eq!(goal.blockers.len(), 1);
    assert_eq!(goal.blockers[0].kind, GoalBlockerKind::Verifier);
    assert_eq!(goal.blockers[0].payload, Some(Json::Raw("{\"verdict\":\"blocked\"}".into())));
}

#[test]
fn evaluate_goal_turn_pauses_when_verifier_errors() {
    let ctx = owned("route", "principal");
    let mut w = world(true);
    w.store.rows.push(goal_row(&ctx, "goal", TaskStatus::Running, goal_of("goal", "ship it", None)));
    w.verdict = Some(VerifierOutcome::Blocked {
        pause: pause_for(
            GoalPauseReason::VerifierBlocked,
            "verifier failed: provider offline",
            vec![blocker(GoalBlockerKind::Verifier, "verifier failed: provider offline")],
        ),
    });

    match w.evaluate(&ctx, true, "looks done") {
        Some(GoalTurnEvaluation::Paused { task_id, message }) => {
            assert_eq!(task_id, "goal");
            assert_eq!(key(&message), "goal-command-paused");
        }
        other => panic!("verifier outage must pause the goal: {other:?}"),
    }
    assert_eq!(w.status("goal"), TaskStatus::Paused);
    let goal = w.goal("goal");
    assert_eq!(goal.pause_reason, Some(GoalPauseReason::VerifierBlocked));
    assert_eq!(goal.pause_description, Some(plain("verifier failed: provider offline")));
    assert_eq!(goal.blockers, vec![blocker(GoalBlockerKind::Verifier, "verifier failed: provider offline")]);
}

#[test]
fn evaluate_goal_turn_pauses_when_verifier_continue_exhausts_budget() {
    let ctx = owned("route", "principal");
    let mut w = world(true);
    w.usage = Some(used(0));
    w.store.rows.push(goal_row(&ctx, "goal", TaskStatus::Running, goal_of("goal", "ship it", Some(100))));
    w.verdict = Some(VerifierOutcome::Continue { notes: "More work remains.".into() });
    w.meanwhile = Some(|w| w.usage = Some(used(75 + 50)));

    match w.evaluate(&ctx, true, "looks done") {
        Some(GoalTurnEvaluation::Paused { task_id, message }) => {
            assert_eq!(task_id, "goal");
            assert_eq!(key(&message), "goal-command-budget-exhausted");
        }
        other => panic!("the verifier used up the budget: {other:?}"),
    }
    assert_eq!(w.status("goal"), TaskStatus::Paused);
    assert_eq!(w.goal("goal").pause_reason, Some(GoalPauseReason::BudgetExhausted));
}

#[test]
fn evaluate_goal_turn_pauses_when_verifier_usage_is_unpriced_under_cost_budget() {
    let ctx = owned("route", "principal");
    let mut w = world(true);
    let mut goal = goal_of("goal", "ship it", None);
    goal.effective_cost_limit_usd = Some(usd(1.0));
    w.store.rows.push(goal_row(&ctx, "goal", TaskStatus::Running, goal));
    w.verdict = Some(VerifierOutcome::AccountingFailed { pricing: true });

    assert!(matches!(w.evaluate(&ctx, true, "looks done"), Some(GoalTurnEvaluation::Paused { .. })));
    assert_eq!(w.status("goal"), TaskStatus::Paused);
    assert_eq!(w.goal("goal").pause_reason, Some(GoalPauseReason::BudgetUnavailable));
}

#[test]
fn unlimited_goal_pauses_when_verifier_omits_usage() {
    let ctx = owned("route", "principal");
    let mut w = world(true);
    w.store.rows.push(goal_row(&ctx, "goal", TaskStatus::Running, goal_of("goal", "ship it", None)));
    w.verdict = Some(VerifierOutcome::AccountingFailed { pricing: false });

    assert!(matches!(w.evaluate(&ctx, true, "looks done"), Some(GoalTurnEvaluation::Paused { .. })));
    assert_eq!(w.goal("goal").pause_reason, Some(GoalPauseReason::BudgetUnavailable));
}

#[test]
fn unlimited_goal_pauses_when_verifier_reports_empty_usage() {
    let ctx = owned("route", "principal");
    let mut w = world(true);
    w.store.rows.push(goal_row(&ctx, "goal", TaskStatus::Running, goal_of("goal", "ship it", None)));
    w.verdict = Some(VerifierOutcome::AccountingFailed { pricing: false });
    w.meanwhile = Some(|w| {
        w.usage = Some(GoalUsageTotals {
            cost_tracking_available: false,
            usage_available: false,
            ..GoalUsageTotals::default()
        });
    });

    match w.evaluate(&ctx, true, "looks done") {
        Some(GoalTurnEvaluation::Paused { task_id, message }) => {
            assert_eq!(task_id, "goal");
            assert_eq!(key(&message), "goal-command-budget-unavailable");
        }
        other => panic!("unmetered verifier call must pause an unlimited goal: {other:?}"),
    }
    assert_eq!(w.status("goal"), TaskStatus::Paused);
    assert_eq!(w.goal("goal").pause_reason, Some(GoalPauseReason::BudgetUnavailable));
}

#[test]
fn an_accounting_failure_leaves_a_newer_state_alone() {
    let ctx = owned("route", "principal");
    let mut w = world(true);
    w.store.rows.push(goal_row(&ctx, "goal", TaskStatus::Running, goal_of("goal", "ship it", None)));
    w.verdict = Some(VerifierOutcome::AccountingFailed { pricing: false });
    w.meanwhile = Some(|w| {
        w.store.rows[0].task.status = TaskStatus::Paused;
        w.write_pause("goal", Some(pause_for(GoalPauseReason::BudgetUnavailable, "paused already", Vec::new())));
    });
    let before = w.published.len();
    assert!(matches!(w.evaluate(&ctx, true, "done"), Some(GoalTurnEvaluation::Paused { .. })));
    assert_eq!(w.goal("goal").pause_description, Some(plain("paused already")));
    assert_eq!(w.published.len(), before + 1);

    let mut w = world(true);
    w.store.rows.push(goal_row(&ctx, "goal", TaskStatus::Running, goal_of("goal", "ship it", None)));
    w.verdict = Some(VerifierOutcome::AccountingFailed { pricing: true });
    w.meanwhile = Some(|w| w.store.rows[0].task.status = TaskStatus::Cancelled);
    assert!(w.evaluate(&ctx, true, "done").is_none());
    assert_eq!(w.status("goal"), TaskStatus::Cancelled);
}

#[test]
fn goal_start_resolves_config_default_and_explicit_budget_limits() {
    let ctx = agent_a().with_channel_type(Some("matrix".into()));
    let mut config = test_policy();
    config.token_budget = Some(12_000);
    config.cost_budget_usd = Some(usd(3.25));
    let (token_limit, cost_limit_usd) = resolve_goal_limits(
        &config,
        GoalBudgetOverrides { token_limit: GoalBudgetValue::Unlimited, cost_limit_usd: GoalBudgetValue::Default },
    );
    let mut w = world(false);

    let started = w.start(&ctx, "ship it", token_limit, cost_limit_usd).unwrap();
    let task_id = started.task_id.unwrap();
    assert_eq!(
        started.message,
        msg3(
            "goal-command-started",
            "task_id",
            plain(&task_id),
            "objective",
            plain("ship it"),
            "budget",
            msg4(
                "goal-budget-summary",
                "tokens_used",
                Text::Number(0),
                "token_limit",
                msg("goal-budget-limit-unlimited"),
                "cost_used",
                formatted_cost(usd(0.0)),
                "cost_limit",
                formatted_cost(usd(3.25)),
            ),
        )
    );
    let goal = w.goal(&task_id);
    assert_eq!(goal.effective_token_limit, None);
    assert_eq!(goal.effective_cost_limit_usd, Some(usd(3.25)));
}

#[test]
fn token_limited_goal_starts_when_cost_tracking_is_disabled() {
    let mut w = world(true);
    let started = w.start(&agent_a(), "ship it", Some(10), None).unwrap();

    assert_eq!(started.status, TaskStatus::Running);
    assert!(started.continue_goal);
    assert_eq!(key(argument(&started.message, "budget")), "goal-budget-summary-cost-unavailable");
    assert_eq!(argument(&started.message, "objective"), &plain("ship it"));
    let task_id = started.task_id.unwrap();
    assert_eq!(w.status(&task_id), TaskStatus::Running);
    let goal = w.goal(&task_id);
    assert_eq!(goal.pause_reason, None);
    assert!(goal.blockers.is_empty());
}

#[test]
fn unlimited_goal_starts_paused_when_the_canonical_ledger_is_unusable() {
    let mut w = world(true);
    w.ledger = Some(TrackerState { enabled: false, healthy: false });
    let started = w.start(&agent_a(), "ship it", None, None).unwrap();

    assert_eq!(started.status, TaskStatus::Paused);
    assert!(!started.continue_goal);
    let task_id = started.task_id.unwrap();
    assert_eq!(w.status(&task_id), TaskStatus::Paused);
    assert_eq!(w.goal(&task_id).pause_reason, Some(GoalPauseReason::BudgetUnavailable));
}

#[test]
fn cost_limited_goal_is_rejected_before_task_creation_when_cost_tracking_is_disabled() {
    let mut w = world(true);
    let error = w.start(&agent_a(), "ship it", None, Some(usd(1.0))).unwrap_err();
    assert_eq!(error, GoalError::new(msg("goal-command-error-cost-tracking-required")));
    assert!(w.store.latest_active_goal_for_agent("agent-a").is_none());
}

#[test]
fn goal_start_persists_restart_continuation_context() {
    let context = || continuation("work", "@operator:example.org");
    let ctx = owned("matrix_work__room_example_org", "principal-a")
        .with_channel_type(Some("matrix".into()))
        .with_continuation_context(Some(context()));
    let mut w = world(false);
    let task_id = w.started(&ctx, "ship it", None);
    assert_eq!(w.store.get_continuation_context(task_id), Ok(Some(context())));
}

#[test]
fn goal_lifecycle_uses_task_record_for_status() {
    let ctx = owned("telegram:chat-1", "principal-1");
    let mut w = world(false);
    let task_id = w.started(&ctx, "ship it", None);
    let task = w.row(&task_id).unwrap().task.copy();
    let goal = w.goal(&task_id);

    assert_eq!(task.kind, TaskKind::Goal);
    assert_eq!(task.status, TaskStatus::Running);
    assert_eq!(task.originator_route.as_deref(), Some("telegram:chat-1"));
    assert_eq!(task.principal_id.as_deref(), Some("principal-1"));
    assert_eq!(goal.objective, "ship it");
    assert!(goal.effective_token_limit.is_none());

    let cancelled = w.run(|replies| cancel_goal(&ctx, Some(task_id.clone()), replies, 0)).unwrap();
    assert_eq!(cancelled.status, TaskStatus::Cancelled);
    assert_eq!(w.status(&task_id), TaskStatus::Cancelled);

    let error = w.run(|replies| cancel_goal(&ctx, Some(task_id.clone()), replies, 0)).unwrap_err();
    assert_eq!(key(&error.text), "goal-command-error-already-terminal");
}

#[test]
fn goal_objective_updates_canonical_goal_extension_only() {
    let ctx = owned("matrix:room-1", "principal-1");
    let mut w = world(false);
    let task_id = w.started(&ctx, "ship initial scope", None);

    let amended = w
        .run(|replies| update_goal_objective(&ctx, &"ship amended scope after evidence".to_string(), replies, 0))
        .unwrap();
    assert_eq!(amended.task_id.as_deref(), Some(task_id.as_str()));
    assert_eq!(amended.status, TaskStatus::Running);
    assert!(!amended.continue_goal, "objective edits must not synthesize a second model turn");
    assert_eq!(key(&amended.message), "goal-command-objective-updated");
    assert_eq!(w.status(&task_id), TaskStatus::Running);
    let goal = w.goal(&task_id);
    assert_eq!(goal.objective, "ship amended scope after evidence");
    assert!(goal.effective_token_limit.is_none());
    assert!(goal.effective_cost_limit_usd.is_none());
}

#[test]
fn goal_visibility_enforces_route_and_principal() {
    let owner = owned("telegram:chat-1", "principal-1");
    let mut w = world(false);
    let task_id = w.started(&owner, "ship it", None);
    let mut status = |ctx: &GoalAdmissionContext| {
        w.run(|replies| status_goal(ctx, Some(task_id.clone()), replies, 0))
    };

    assert!(status(&owner).is_ok());
    let error = status(&owned("telegram:chat-2", "principal-1")).unwrap_err();
    assert_eq!(key(&error.text), "goal-command-error-wrong-route");
    let error = status(&owned("telegram:chat-1", "principal-2")).unwrap_err();
    assert_eq!(key(&error.text), "goal-command-error-wrong-principal");
}

#[test]
fn exact_legacy_goal_context_rebinds_before_pause_and_cancel() {
    let mut w = world(false);
    let task_id = "legacy-route-goal";
    let context = || continuation("main", "@alice:example");
    let legacy = owned("matrix_main__room_example", "matrix_main__alice_example");
    let mut row = goal_row(
        &legacy,
        task_id,
        TaskStatus::Running,
        goal_of(task_id, "retain existing goal controls after upgrade", None),
    );
    row.continuation = Some(context());
    w.store.rows.push(row);
    let canonical_route = "6:matrix|4:main|14:@alice:example|13:!room:example|0:|12:reply_target";
    let canonical_principal = "6:matrix|4:main|14:@alice:example";
    let ctx = owned(canonical_route, canonical_principal)
        .with_legacy_identity(
            Some("matrix_main__room_example".into()),
            Some("matrix_main__alice_example".into()),
        )
        .with_goal_task_id(Some(task_id.into()))
        .with_continuation_context(Some(context()));

    let paused =
        w.pause(&ctx, task_id, pause_for(GoalPauseReason::OperatorPaused, "operator requested pause", Vec::new()));
    assert_eq!(paused.status, TaskStatus::Paused);
    let rebound = w.row(task_id).unwrap().task.copy();
    assert_eq!(rebound.originator_route.as_deref(), Some(canonical_route));
    assert_eq!(rebound.principal_id.as_deref(), Some(canonical_principal));

    let cancelled = w.run(|replies| cancel_goal(&ctx, Some(task_id.into()), replies, 0)).unwrap();
    assert_eq!(cancelled.status, TaskStatus::Cancelled);
}

#[test]
fn legacy_identity_never_rebinds_without_exact_durable_continuation() {
    let mut w = world(false);
    let task_id = "legacy-route-mismatch";
    let legacy = owned("legacy-route", "legacy-principal");
    let mut row = goal_row(
        &legacy,
        task_id,
        TaskStatus::Running,
        goal_of(task_id, "must not be claimed by a collision", None),
    );
    row.continuation = Some(continuation("main", "@alice:example"));
    w.store.rows.push(row);
    let ctx = owned("canonical-route", "canonical-principal")
        .with_legacy_identity(Some("legacy-route".into()), Some("legacy-principal".into()))
        .with_goal_task_id(Some(task_id.into()))
        .with_continuation_context(Some(continuation("main", "@mallory:example")));

    let error = w.run(|replies| status_goal(&ctx, Some(task_id.into()), replies, 0)).unwrap_err();
    assert_eq!(key(&error.text), "goal-command-error-wrong-route");
    let unchanged = w.row(task_id).unwrap().task.copy();
    assert_eq!(unchanged.originator_route.as_deref(), Some("legacy-route"));
    assert_eq!(unchanged.principal_id.as_deref(), Some("legacy-principal"));
}

#[test]
fn goal_start_rejects_duplicate_active_context() {
    let ctx = owned("telegram:chat-1", "principal-1");
    let mut w = world(false);
    w.started(&ctx, "ship it", None);
    let error = w.start(&ctx, "ship another", None, None).unwrap_err();
    assert_eq!(key(&error.text), "goal-command-error-active-goal-exists");
    assert_eq!(w.store.rows.len(), 1);
}

#[test]
fn concurrent_goal_start_allows_one_active_context() {
    let ctx = owned("telegram:chat-1", "principal-1");
    let identities = [GoalIdentity::draw(1, "boot-a".into()), GoalIdentity::draw(1, "boot-a".into())];
    let objectives = ["ship one".to_string(), "ship two".to_string()];
    // Each bit says whose turn it is.
    for order in 0..16u32 {
        let mut w = world(false);
        let mut replies: [Vec<GoalReply>; 2] = [Vec::new(), Vec::new()];
        let step = |i: usize, replies: &Vec<GoalReply>| {
            start_goal(&ctx, &objectives[i], None, None, false, &identities[i], replies, 0)
        };
        let turns = (0..4).map(|bit| (order >> bit & 1) as usize).chain([0, 0, 1, 1]);
        for i in turns {
            if let Step::Ask(request) = step(i, &replies[i]) {
                let reply = w.answer(request);
                replies[i].push(reply);
            }
        }
        let outcomes = [step(0, &replies[0]), step(1, &replies[1])];
        assert_eq!(outcomes.iter().filter(|outcome| matches!(outcome, Step::Ready(_, 2))).count(), 1);
        let mut refusals = outcomes.iter().filter_map(|outcome| match outcome {
            Step::Fail(error) => Some(key(&error.text)),
            _ => None,
        });
        assert!(matches!(
            refusals.next(),
            Some("goal-command-error-active-goal-exists" | "goal-command-error-active-goal-conflict")
        ));
        assert_eq!(refusals.next(), None);
        assert_eq!(w.store.rows.len(), 1);
    }
}

#[test]
fn a_refused_insertion_is_told_apart_from_a_broken_store() {
    let ctx = owned("telegram:chat-1", "principal-1");
    let identity = GoalIdentity::draw(1, "boot-a".into());
    let answered = |error: GoalError| {
        let replies = vec![GoalReply::Task(None), GoalReply::Failed(error)];
        start_goal(&ctx, &"ship it".to_string(), None, None, false, &identity, &replies, 0)
    };
    let taken = GoalError::new(StoreError::ContextTaken.text());
    let conflict = Step::Fail(GoalError::new(msg("goal-command-error-active-goal-conflict")));
    assert_eq!(answered(taken.copy()), conflict);
    assert_eq!(answered(taken.context(plain("insert goal"))), conflict);
    let broken = GoalError::new(plain("disk I/O error"));
    assert_eq!(answered(broken.copy()), Step::Fail(broken.context(msg("goal-command-error-start-failed"))));
}

#[test]
fn goal_status_reports_recovered_daemon_restart_pause() {
    let ctx = owned("matrix:room-1", "principal-1");
    let mut w = world(true);
    let id = "goal-recovered-paused";
    w.store.rows.push(goal_row(&ctx, id, TaskStatus::Paused, goal_of(id, "finish restart validation", None)));
    w.write_pause(
        id,
        Some(recovered_goal_continuation_blocked_pause(RecoveredGoalContinuationBlocker::ChannelUnavailable)),
    );

    let status = w.run(|replies| status_goal(&ctx, Some(id.into()), replies, 0)).unwrap();
    assert_eq!(status.status, TaskStatus::Paused);
    assert!(!status.continue_goal);
    assert_eq!(key(&status.message), "goal-command-status-paused-blocked");
    assert_eq!(argument(&status.message, "reason"), &msg("goal-pause-reason-daemon-restarted"));
    assert_eq!(argument(&status.message, "objective"), &plain("finish restart validation"));
    assert!(format!("{:?}", argument(&status.message, "blockers")).contains("goal-blocker-kind-restart-recovery"));
}

#[test]
fn goal_status_does_not_initialize_cost_tracker_storage() {
    let ctx = agent_a();
    let mut w = world(false);
    let task_id = w.started(&ctx, "inspect status only", Some(10_000));
    w.configured = true;
    w.ledger_closed = true;

    let status = w.run(|replies| status_goal(&ctx, Some(task_id.clone()), replies, 0)).unwrap();
    assert_eq!(status.status, TaskStatus::Running);
    assert_eq!(
        key(argument(&status.message, "budget")),
        "goal-budget-summary-unavailable",
        "status should report unavailable usage instead of initializing the ledger"
    );
    assert!(!w.ledger_opened, "read-only status must not create cost tracker storage");
}

#[test]
fn pause_and_resume_store_goal_specific_blockers_only() {
    let ctx = agent_a();
    let mut w = world(false);
    let task_id = w.started(&ctx, "ship it", None);
    let mut asking = blocker(GoalBlockerKind::NeedsUserInput, "Need operator answer");
    asking.payload = Some(Json::Raw("{\"prompt\":\"continue?\"}".into()));

    let paused = w.pause(&ctx, &task_id, pause_for(GoalPauseReason::NeedsUserInput, "need answer", vec![asking]));
    assert_eq!(paused.status, TaskStatus::Paused);
    assert_eq!(w.status(&task_id), TaskStatus::Paused);
    let goal = w.goal(&task_id);
    assert_eq!(goal.pause_reason, Some(GoalPauseReason::NeedsUserInput));
    assert_eq!(goal.blockers.len(), 1);

    w.boot_id = "boot-resumed".into();
    let owner = w.owner();
    let resumed = w.run(|replies| resume_goal(&ctx, &None, false, &owner, replies, 0)).unwrap();
    assert_eq!(resumed.status, TaskStatus::Running);
    assert_eq!(w.status(&task_id), TaskStatus::Running);
    assert_eq!(w.row(&task_id).unwrap().task.owner_boot_id, "boot-resumed");
    assert_eq!(w.row(&task_id).unwrap().task.owner_pid, 7);
    let goal = w.goal(&task_id);
    assert!(goal.pause_reason.is_none());
    assert!(goal.blockers.is_empty());
}

#[test]
fn resume_reason_survives_as_transient_continuation_input_only() {
    let ctx = agent_a();
    let mut w = world(false);
    let task_id = w.started(&ctx, "ship it", None);
    w.pause(
        &ctx,
        &task_id,
        pause_for(
            GoalPauseReason::NeedsUserInput,
            "need answer",
            vec![blocker(GoalBlockerKind::NeedsUserInput, "Need operator answer")],
        ),
    );

    let reason = Some("operator confirmed the external deploy is healthy".to_string());
    let owner = w.owner();
    let resumed = w.run(|replies| resume_goal(&ctx, &reason, false, &owner, replies, 0)).unwrap();
    assert!(resumed.continue_goal);
    assert_eq!(resumed.continuation_reason, reason);
    let goal = w.goal(&task_id);
    assert!(goal.pause_reason.is_none());
    assert!(goal.pause_description.is_none());
    assert!(goal.blockers.is_empty());
}

#[test]
fn human_gate_pause_uses_scoped_active_goal() {
    let ctx = owned("route", "principal");
    let mut w = world(false);
    let task_id = w.started(&ctx, "wait for operator input", None);
    let ctx = owned("route", "principal").with_goal_task_id(Some(task_id.clone()));
    let payload = Some(Json::Raw("{\"tool\":\"ask_user\",\"question\":\"continue?\"}".into()));

    let admission = w
        .run(|replies| {
            pause_current_goal_for_human_gate(
                &ctx,
                true,
                GoalBlockerKind::NeedsUserInput,
                &"Need operator answer".to_string(),
                &payload,
                replies,
            )
        })
        .unwrap();
    assert_eq!(admission.task_id.as_deref(), Some(task_id.as_str()));
    assert_eq!(admission.status, TaskStatus::Paused);
    assert_eq!(w.status(&task_id), TaskStatus::Paused);
    let goal = w.goal(&task_id);
    assert_eq!(goal.pause_reason, Some(GoalPauseReason::NeedsUserInput));
    assert_eq!(goal.blockers[0].kind, GoalBlockerKind::NeedsUserInput);
    assert_eq!(goal.blockers[0].payload, payload);
}

#[test]
fn budget_update_resumes_goal_when_budget_blocker_clears() {
    let context = || continuation("work", "@operator:example.org");
    let ctx = owned("matrix:room", "principal-a").with_continuation_context(Some(context()));
    let mut w = world(false);
    let task_id = w.started(&ctx, "ship it", Some(10));
    w.pause(&ctx, &task_id, budget_pause());

    w.boot_id = "boot-resumed".into();
    let admitted = w.update_budget(&ctx, tokens_only(GoalBudgetValue::Unlimited)).unwrap();
    assert_eq!(admitted.status, TaskStatus::Running);
    assert!(admitted.continue_goal);
    assert_eq!(w.status(&task_id), TaskStatus::Running);
    assert_eq!(w.row(&task_id).unwrap().task.owner_boot_id, "boot-resumed");
    assert_eq!(w.row(&task_id).unwrap().task.owner_pid, 7);
    let goal = w.goal(&task_id);
    assert!(goal.effective_token_limit.is_none());
    assert!(goal.pause_reason.is_none());
    assert!(goal.blockers.is_empty());
    assert_eq!(w.store.get_continuation_context(task_id), Ok(Some(context())));
}

#[test]
fn budget_update_does_not_resume_when_the_canonical_ledger_is_unusable() {
    let ctx = agent_a();
    let mut w = world(true);
    let task_id = w.started(&ctx, "ship it", Some(10));
    w.pause(
        &ctx,
        &task_id,
        pause_for(
            GoalPauseReason::BudgetUnavailable,
            "ledger unavailable",
            vec![blocker(GoalBlockerKind::Budget, "Ledger unavailable")],
        ),
    );
    w.usage = None;
    w.ledger = Some(TrackerState { enabled: false, healthy: false });

    let admitted = w
        .update_budget(
            &ctx,
            GoalBudgetOverrides {
                token_limit: GoalBudgetValue::Unlimited,
                cost_limit_usd: GoalBudgetValue::Unlimited,
            },
        )
        .unwrap();
    assert_eq!(admitted.status, TaskStatus::Paused);
    assert!(!admitted.continue_goal);
    assert_eq!(w.status(&task_id), TaskStatus::Paused);
    assert_eq!(w.goal(&task_id).pause_reason, Some(GoalPauseReason::BudgetUnavailable));
}

fn exhausted_world(ctx: &GoalAdmissionContext) -> World {
    let mut w = world(true);
    w.usage = Some(used(100_000));
    w.tracking = CostTracking { enabled: true, tracker: Some(TrackerState { enabled: true, healthy: true }) };
    w.ledger = Some(TrackerState { enabled: true, healthy: true });
    let mut goal = goal_of("goal", "ship it", Some(100_000));
    let pause = budget_pause();
    goal.pause_reason = Some(pause.reason);
    goal.pause_description = pause.description;
    goal.blockers = pause.blockers;
    w.store.rows.push(goal_row(ctx, "goal", TaskStatus::Paused, goal));
    w.boot_id = "boot-budget-update".into();
    w
}

#[test]
fn budget_update_keeps_goal_paused_when_new_token_limit_is_still_exhausted() {
    let ctx = owned("route", "principal");
    let mut w = exhausted_world(&ctx);
    let admitted = w.update_budget(&ctx, tokens_only(GoalBudgetValue::Limited(80_000))).unwrap();

    assert_eq!(admitted.status, TaskStatus::Paused);
    assert!(!admitted.continue_goal);
    assert_eq!(key(&admitted.message), "goal-command-budget-updated-paused");
    let budget = argument(&admitted.message, "budget");
    assert_eq!(argument(budget, "tokens_used"), &Text::Number(100_000));
    assert_eq!(argument(budget, "token_limit"), &Text::Number(80_000));
    assert_eq!(w.status("goal"), TaskStatus::Paused);
    let goal = w.goal("goal");
    assert_eq!(goal.effective_token_limit, Some(80_000));
    assert_eq!(goal.pause_reason, Some(GoalPauseReason::BudgetExhausted));
    assert_eq!(goal.blockers.len(), 1);
    assert_eq!(goal.blockers[0].kind, GoalBlockerKind::Budget);
}

#[test]
fn budget_update_resumes_goal_when_new_token_limit_clears_exhaustion() {
    let ctx = owned("route", "principal")
        .with_continuation_context(Some(continuation("work", "@operator:example.org")));
    let mut w = exhausted_world(&ctx);
    let admitted = w.update_budget(&ctx, tokens_only(GoalBudgetValue::Limited(120_000))).unwrap();

    assert_eq!(admitted.status, TaskStatus::Running);
    assert!(admitted.continue_goal);
    assert_eq!(key(&admitted.message), "goal-command-budget-updated-resumed");
    let budget = argument(&admitted.message, "budget");
    assert_eq!(argument(budget, "tokens_used"), &Text::Number(100_000));
    assert_eq!(argument(budget, "token_limit"), &Text::Number(120_000));
    assert_eq!(w.status("goal"), TaskStatus::Running);
    assert_eq!(w.row("goal").unwrap().task.owner_boot_id, "boot-budget-update");
    assert_eq!(w.row("goal").unwrap().task.owner_pid, 7);
    let goal = w.goal("goal");
    assert_eq!(goal.effective_token_limit, Some(120_000));
    assert!(goal.pause_reason.is_none());
    assert!(goal.blockers.is_empty());
    assert_eq!(
        w.store.get_continuation_context("goal".into()),
        Ok(Some(continuation("work", "@operator:example.org")))
    );
}

#[test]
fn budget_update_reports_remaining_non_budget_blockers() {
    let ctx = agent_a();
    let mut w = world(false);
    let task_id = w.started(&ctx, "ship it", Some(10));
    w.pause(
        &ctx,
        &task_id,
        pause_for(
            GoalPauseReason::BudgetExhausted,
            "multiple blockers",
            vec![
                blocker(GoalBlockerKind::NeedsUserInput, "Need operator answer"),
                blocker(GoalBlockerKind::Budget, "Budget exhausted"),
            ],
        ),
    );

    let admitted = w.update_budget(&ctx, tokens_only(GoalBudgetValue::Unlimited)).unwrap();
    assert_eq!(admitted.status, TaskStatus::Paused);
    assert!(!admitted.continue_goal);
    assert_eq!(key(&admitted.message), "goal-command-budget-updated-paused-blocked");
    assert!(format!("{:?}", admitted.message).contains("Need operator answer"));
    assert_eq!(w.status(&task_id), TaskStatus::Paused);
    let goal = w.goal(&task_id);
    assert_eq!(goal.pause_reason, Some(GoalPauseReason::NeedsUserInput));
    assert_eq!(goal.blockers.len(), 1);
    assert_eq!(goal.blockers[0].kind, GoalBlockerKind::NeedsUserInput);
}

#[test]
fn an_interruption_and_an_accounting_failure_pause_a_running_goal() {
    let ctx = owned("route", "principal");
    let mut w = world(true);
    w.store.rows.push(goal_row(&ctx, "goal", TaskStatus::Running, goal_of("goal", "ship it", None)));
    assert_eq!(w.run(|replies| pause_running_goal_for_interruption(&"goal".to_string(), true, replies)), Ok(()));
    assert_eq!(w.status("goal"), TaskStatus::Paused);

    w.row("goal").unwrap().task.status = TaskStatus::Running;
    let cause = Some(GoalBudgetUnavailableCause::CostPricingUnavailable);
    assert_eq!(
        w.run(|replies| pause_goal_for_accounting_failure(&"goal".to_string(), cause, true, replies)),
        Ok(())
    );
    assert_eq!(w.status("goal"), TaskStatus::Paused);
    assert_eq!(w.goal("goal").pause_reason, Some(GoalPauseReason::BudgetUnavailable));
}

#[test]
fn conflicts_of_active_contexts_are_told_apart() {
    let conflict = GoalError::new(plain("UNIQUE constraint failed: index 'idx_tasks_active_goal_context'"));
    let other = GoalError::new(plain("disk I/O error"));
    assert!(is_active_goal_context_conflict(&conflict));
    assert!(is_active_goal_context_conflict(&conflict.copy().context(plain("create goal"))));
    assert!(is_active_goal_context_conflict(&GoalError::new(msg("goal-command-help"))
        .context(Text::Trimmed(Box::new(plain(" index 'idx_tasks_active_goal_context' "))))));
    assert!(!is_active_goal_context_conflict(&other));
    assert!(!is_active_goal_context_conflict(&other.context(plain("create goal"))));
}

#[test]
fn live_goal_binding_reservation_rejects_competing_binder() {
    let mut scope = Some(GoalRuntimeScope::new(Some(GoalAdmissionContext::new("agent-a".into())), None));
    let mut reservation =
        reserve_current_goal_task_binding(&mut scope).expect("unbound live task binding can be reserved");
    assert!(current_goal_task_binding_is_reserved(&scope));
    assert!(ensure_current_goal_task_binding_available(&scope).is_err());
    assert!(
        !bind_current_goal_task(&mut scope, "goal-competing"),
        "a generic binder cannot steal a model admission reservation"
    );

    assert!(reservation.bind(scope.as_mut().unwrap(), "goal-admitted".into()));
    assert_eq!(
        scope.as_ref().unwrap().admission_context().unwrap().goal_task_id.as_deref(),
        Some("goal-admitted")
    );
    assert!(!current_goal_task_binding_is_reserved(&scope));
    assert!(!bind_current_goal_task(&mut scope, "goal-competing"));
}

#[test]
fn a_reserved_turn_is_left_to_its_reservation() {
    let ctx = channel_context();
    let policy = test_policy();
    let command = parse("/goal start ship it");
    let identity = GoalIdentity::draw(1, "boot-a".into());
    let mut scope = Some(GoalRuntimeScope::new(Some(channel_context()), None));
    let mut reservation = reserve_current_goal_task_binding(&mut scope).unwrap();
    let reserved = current_goal_task_binding_is_reserved(&scope);
    assert!(reserved);

    let mut w = world(true);
    let admission = w
        .run(|replies| admit_goal_command(&ctx, &command, &None, &policy, None, true, true, true, reserved, &identity, replies))
        .unwrap();
    assert!(admission.continue_goal);
    assert!(w.bound.is_empty());
    let id = admission.task_id.unwrap();
    assert!(reservation.bind(scope.as_mut().unwrap(), id.clone()));
    assert_eq!(scope.as_ref().unwrap().admission_context().unwrap().goal_task_id, Some(id));

    let mut w = world(true);
    let admission = w
        .run(|replies| admit_goal_command(&ctx, &command, &None, &policy, None, channel_owned(&ctx, &policy), true, true, false, &identity, replies))
        .unwrap();
    assert_eq!(w.bound, vec![admission.task_id.unwrap()]);
}

#[test]
fn a_released_reservation_leaves_the_turn_free() {
    let mut scope = Some(GoalRuntimeScope::new(None, None).with_admission_context(Some(agent_a())));
    let mut reservation = reserve_current_goal_task_binding(&mut scope).unwrap();
    reservation.release(scope.as_mut().unwrap());
    assert!(ensure_current_goal_task_binding_available(&scope).is_ok());
    assert!(!reservation.bind(scope.as_mut().unwrap(), "goal-late".into()));
    assert_eq!(scope.as_ref().unwrap().admission_context().unwrap().goal_task_id, None);
    assert!(bind_current_goal_task(&mut scope, "goal-1"));
    assert!(!bind_current_goal_task(&mut None, "goal-1"));
}

#[test]
fn a_turn_is_evaluated_once_it_is_marked() {
    let mut markers = TurnMarkers::new();
    let marker = markers.add_marker();
    let other = markers.add_marker();
    let scope = GoalRuntimeScope::new(Some(agent_a()), Some(other));
    assert_eq!(scope.admission_context(), Some(&agent_a()));
    let other = Some(scope);

    let parent = Some(GoalRuntimeScope::new(None, None).with_turn_evaluation_marker(Some(marker)));
    let child = Some(GoalRuntimeScope::new(Some(agent_a()), current_goal_turn_evaluation_marker(&parent)));
    assert!(!current_goal_turn_evaluation_requested(&parent, &markers));
    mark_current_goal_turn_for_evaluation(&child, &mut markers);
    assert!(current_goal_turn_evaluation_requested(&child, &markers));
    assert!(current_goal_turn_evaluation_requested(&parent, &markers), "the parent sees what the child marks");
    assert!(!current_goal_turn_evaluation_requested(&other, &markers));

    assert_eq!(current_goal_turn_evaluation_marker(&None), None);
    mark_current_goal_turn_for_evaluation(&None, &mut markers);
    assert!(!current_goal_turn_evaluation_requested(&None, &markers));
    assert!(!current_goal_turn_evaluation_requested(&other, &markers));
    assert!(current_goal_start_tool_batch_requested(scope_goal_start_tool_batch(None, true)));
    assert!(!current_goal_start_tool_batch_requested(None));
}
