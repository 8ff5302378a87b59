//! The task tables and their guarded transitions.
use zeroclaw_runtime::goal_task::{
    accounting_state_from_db, accounting_state_to_db, GoalAccountingState, GoalBlocker, GoalBlockerKind,
    GoalPauseReason, GoalPauseState, GoalTaskRecord, GoalTransitionResult, TaskContinuationContext,
    TaskContinuationConversationScope,
};
use zeroclaw_runtime::message::{plain, Text};
use zeroclaw_runtime::payload::Json;
use zeroclaw_runtime::store::error::StoreError;
use zeroclaw_runtime::store::limits::{cost_limit_from_db, cost_limit_to_db, token_limit_from_db, token_limit_to_db, LimitFault};
use zeroclaw_runtime::store::migration::{migrate_schema, MigrationStep, OBJECTIVE_GUARD};
use zeroclaw_runtime::store::rows::{row_to_goal_task, RowError, StoredGoal};
use zeroclaw_runtime::store::session::ensure_goal_task_identity;
use zeroclaw_runtime::store::{is_store_blank, TaskRow, TaskStore};
use zeroclaw_runtime::task::{status_from_db, status_to_db, TaskKind, TaskRecord, TaskStatus};
use zeroclaw_runtime::usd::Usd;

fn usd(value: f64) -> Usd {
    Usd { bits: value.to_bits() }
}

fn rec(id: &str, agent: &str, pid: u32, boot: &str) -> TaskRecord {
    TaskRecord {
        id: id.into(),
        kind: TaskKind::Delegate,
        agent: agent.into(),
        status: TaskStatus::Running,
        owner_pid: pid,
        owner_boot_id: boot.into(),
        heartbeat_at: None,
        depth: 0,
        parent_id: None,
        originator_route: None,
        delivered: false,
        idem_key: None,
        principal_id: None,
        session_id: None,
        execution_epoch: 0,
        started_at: "2026-06-18T00:00:00Z".into(),
        finished_at: None,
    }
}

fn goal_rec(id: &str, started_at: &str) -> TaskRecord {
    TaskRecord { kind: TaskKind::Goal, started_at: started_at.into(), ..rec(id, "main", 1, "boot-1") }
}

fn goal_record(id: &str, objective: &str) -> GoalTaskRecord {
    GoalTaskRecord { task_id: id.into(), objective: objective.into(), ..GoalTaskRecord::default() }
}

fn insert(store: &mut TaskStore, task: TaskRecord, goal: Option<GoalTaskRecord>) {
    store.rows.push(TaskRow { task, error: None, goal, continuation: None });
}

fn continuation_context() -> TaskContinuationContext {
    TaskContinuationContext {
        channel: "matrix".into(),
        channel_alias: Some("default".into()),
        reply_target: "room".into(),
        sender: "operator".into(),
        thread_ts: None,
        interruption_scope_id: None,
        conversation_scope: TaskContinuationConversationScope::ReplyTarget,
    }
}

fn session_rec(id: &str, session: &str) -> TaskRecord {
    TaskRecord { session_id: Some(session.into()), ..goal_rec(id, "2026-06-18T00:00:00Z") }
}

fn started(id: &str, session: &str) -> TaskStore {
    let mut store = TaskStore::new();
    assert_eq!(
        store.create_or_replace_session_goal(session_rec(id, session), goal_record(id, "ship it")),
        Ok(GoalTransitionResult::Applied)
    );
    store
}

fn operator_pause() -> GoalPauseState {
    GoalPauseState {
        reason: GoalPauseReason::OperatorPaused,
        description: Some(plain("by hand")),
        blockers: Vec::new(),
    }
}

fn epoch_of(store: &TaskStore, session: &str) -> i64 {
    store.current_goal_for_session(session).unwrap().execution_epoch
}

#[test]
fn latest_active_goal_for_agent_resolves_in_sql() {
    let mut s = TaskStore::new();
    let mut old_goal = goal_rec("old-goal", "2026-06-18T00:00:00Z");
    old_goal.originator_route = Some("route-old".into());
    insert(&mut s, old_goal, None);
    let mut newer_terminal_goal = goal_rec("done-goal", "2026-06-20T00:00:00Z");
    newer_terminal_goal.status = TaskStatus::Completed;
    insert(&mut s, newer_terminal_goal, None);
    let mut newest_delegate = rec("newest-delegate", "main", 1, "boot-1");
    newest_delegate.started_at = "2026-06-21T00:00:00Z".into();
    insert(&mut s, newest_delegate, None);
    insert(&mut s, goal_rec("latest-goal", "2026-06-19T00:00:00Z"), None);

    assert_eq!(s.latest_active_goal_for_agent("main").unwrap().id, "latest-goal");
    assert!(s.latest_active_goal_for_agent("other").is_none());
}

#[test]
fn latest_active_goal_for_context_filters_route_and_principal() {
    let mut s = TaskStore::new();
    for (id, route, principal, started_at) in [
        ("other-route", "route-b", "principal-a", "2026-06-20T00:00:00Z"),
        ("other-principal", "route-a", "principal-b", "2026-06-19T00:00:00Z"),
        ("wanted", "route-a", "principal-a", "2026-06-18T00:00:00Z"),
    ] {
        let mut goal = goal_rec(id, started_at);
        goal.originator_route = Some(route.into());
        goal.principal_id = Some(principal.into());
        insert(&mut s, goal, None);
    }

    let got = s.latest_active_goal_for_context("main", Some("route-a"), Some("principal-a")).unwrap();
    assert_eq!(got.id, "wanted");
    let got_id = s.latest_active_goal_id_for_context("main", Some("route-a"), Some("principal-a"));
    assert_eq!(got_id.as_deref(), Some("wanted"));
}

#[test]
fn latest_active_goal_breaks_started_at_ties_by_insert_order() {
    let mut s = TaskStore::new();
    for (id, route, principal) in
        [("first-goal", "route-a", "principal-a"), ("second-goal", "route-b", "principal-b")]
    {
        let mut goal = goal_rec(id, "2026-06-19T00:00:00Z");
        goal.originator_route = Some(route.into());
        goal.principal_id = Some(principal.into());
        insert(&mut s, goal, None);
    }

    assert_eq!(s.latest_active_goal_for_agent("main").unwrap().id, "second-goal");
    assert_eq!(s.latest_active_goal_for_context("main", None, None).unwrap().id, "second-goal");
    assert_eq!(s.latest_active_goal_id_for_context("main", None, None).as_deref(), Some("second-goal"));
}

#[test]
fn goal_task_extension_roundtrips_without_duplicating_lifecycle() {
    let mut s = TaskStore::new();
    let mut task = goal_rec("goal-1", "2026-06-18T00:00:00Z");
    task.status = TaskStatus::Paused;
    insert(
        &mut s,
        task,
        Some(GoalTaskRecord {
            effective_token_limit: Some(10_000),
            effective_cost_limit_usd: Some(usd(1.25)),
            pause_reason: Some(GoalPauseReason::NeedsUserInput),
            pause_description: Some(plain("waiting for operator")),
            blockers: vec![GoalBlocker {
                kind: GoalBlockerKind::NeedsUserInput,
                message: plain("Need operator answer"),
                payload: Some(Json::Raw("{\"question\":\"continue?\"}".into())),
            }],
            ..goal_record("goal-1", "ship goal mode")
        }),
    );

    let goal = s.get_goal_task("goal-1").unwrap();
    assert_eq!(goal.task_id, "goal-1");
    assert_eq!(goal.objective, "ship goal mode");
    assert_eq!(goal.effective_token_limit, Some(10_000));
    assert_eq!(goal.effective_cost_limit_usd, Some(usd(1.25)));
    assert_eq!(goal.pause_reason, Some(GoalPauseReason::NeedsUserInput));
    assert_eq!(goal.pause_description, Some(plain("waiting for operator")));
    assert_eq!(goal.blockers.len(), 1);

    assert_eq!(s.update_goal_limits("goal-1".into(), Some(20_000), None), Ok(()));
    let goal = s.get_goal_task("goal-1").unwrap();
    assert_eq!(goal.effective_token_limit, Some(20_000));
    assert_eq!(goal.effective_cost_limit_usd, None);
    assert_eq!(goal.objective, "ship goal mode", "budget updates must not duplicate or rewrite objective state");

    assert_eq!(s.update_goal_pause("goal-1".into(), None), Ok(()));
    let resumed = s.get_goal_task("goal-1").unwrap();
    assert!(resumed.pause_reason.is_none());
    assert!(resumed.pause_description.is_none());
    assert!(resumed.blockers.is_empty());
}

#[test]
fn goal_task_extension_rejects_non_goal_task_record() {
    let task = rec("delegate-1", "main", 1, "boot-1");
    assert_eq!(
        ensure_goal_task_identity(&task, &goal_record("delegate-1", "must not attach to a delegate")),
        Err(StoreError::NotGoalKind { task_id: "delegate-1".into() })
    );
    let goal = goal_rec("goal-1", "2026-06-18T00:00:00Z");
    assert_eq!(
        ensure_goal_task_identity(&goal, &goal_record("goal-2", "of another task")),
        Err(StoreError::IdMismatch { task_id: "goal-1".into(), goal_task_id: "goal-2".into() })
    );
    assert_eq!(ensure_goal_task_identity(&goal, &goal_record("goal-1", "its own")), Ok(()));
}

#[test]
fn update_goal_limits_rejects_invalid_effective_limits() {
    let mut s = TaskStore::new();
    insert(
        &mut s,
        goal_rec("goal-limit-validation", "2026-06-18T00:00:00Z"),
        Some(goal_record("goal-limit-validation", "validate limits")),
    );

    assert_eq!(
        s.update_goal_limits("goal-limit-validation".into(), Some(i64::MAX as u64 + 1), None),
        Err(StoreError::TokenLimitOutOfRange { value: i64::MAX as u64 + 1 })
    );
    for invalid in [-1.0, f64::INFINITY, f64::NAN] {
        assert_eq!(
            s.update_goal_limits("goal-limit-validation".into(), None, Some(usd(invalid))),
            Err(StoreError::CostLimitInvalid)
        );
    }
    assert_eq!(s.get_goal_task("goal-limit-validation").unwrap(), goal_record("goal-limit-validation", "validate limits"));
}

#[test]
fn get_goal_task_rejects_legacy_negative_token_limit() {
    let row = StoredGoal {
        task_id: "goal-corrupt-limit".into(),
        objective: "reject legacy corrupt limit".into(),
        effective_token_limit: Some(-1),
        effective_cost_limit_usd: None,
        pause_reason: None,
        pause_description: None,
        blockers: Ok(Vec::new()),
        pending_call_id: None,
        pending_call_epoch: None,
        accounting_state: "complete".into(),
    };
    assert_eq!(
        row_to_goal_task(row).unwrap_err(),
        RowError::Limit(LimitFault::NegativeTokens { tokens: -1 })
    );
}

#[test]
fn unreadable_rows_name_what_is_wrong_with_them() {
    let row = || StoredGoal {
        task_id: "goal".into(),
        objective: "o".into(),
        effective_token_limit: None,
        effective_cost_limit_usd: None,
        pause_reason: None,
        pause_description: None,
        blockers: Ok(Vec::new()),
        pending_call_id: None,
        pending_call_epoch: None,
        accounting_state: "complete".into(),
    };
    assert_eq!(
        row_to_goal_task(StoredGoal { pause_reason: Some("future".into()), ..row() }),
        Err(RowError::UnknownPauseReason("future".into()))
    );
    assert_eq!(
        row_to_goal_task(StoredGoal { blockers: Err("not JSON".into()), ..row() }),
        Err(RowError::Blockers("not JSON".into()))
    );
    assert_eq!(
        row_to_goal_task(StoredGoal { accounting_state: "odd".into(), ..row() }),
        Err(RowError::UnknownAccountingState("odd".into()))
    );
    assert_eq!(
        row_to_goal_task(StoredGoal { effective_cost_limit_usd: Some(usd(-0.01)), ..row() }),
        Err(RowError::Limit(LimitFault::InvalidCost { cost: usd(-0.01) }))
    );
}

#[test]
fn goal_extension_updates_reject_missing_goal_rows() {
    let mut s = TaskStore::new();
    insert(&mut s, goal_rec("goal-without-extension", "2026-06-18T00:00:00Z"), None);

    let missing = || Err(StoreError::ExtensionMissing { task_id: "goal-without-extension".into() });
    assert_eq!(s.update_goal_limits("goal-without-extension".into(), Some(100), None), missing());
    let pause =
        GoalPauseState { reason: GoalPauseReason::NeedsUserInput, description: None, blockers: Vec::new() };
    assert_eq!(s.update_goal_pause("goal-without-extension".into(), Some(pause)), missing());
}

#[test]
fn continuation_context_requires_goal_extension_row() {
    let mut s = TaskStore::new();
    insert(&mut s, rec("delegate-context", "main", 1, "boot-1"), None);

    let refused = StoreError::NotAGoal { task_id: "delegate-context".into() };
    assert_eq!(
        s.set_continuation_context("delegate-context".into(), Some(continuation_context())).unwrap_err(),
        refused
    );
    assert_eq!(s.get_continuation_context("delegate-context".into()).unwrap_err(), refused);

    insert(&mut s, goal_rec("goal-context", "2026-06-18T00:00:00Z"), Some(goal_record("goal-context", "go on")));
    assert_eq!(s.set_continuation_context("goal-context".into(), Some(continuation_context())), Ok(()));
    assert_eq!(s.get_continuation_context("goal-context".into()), Ok(Some(continuation_context())));
}

#[test]
fn session_goals_refuse_unguarded_changes() {
    let mut s = started("goal-1", "session-1");
    assert_eq!(s.reject_session_goal_legacy_mutation("goal-1"), Err(StoreError::SessionBound));
    assert_eq!(s.update_goal_limits("goal-1".into(), Some(1), None), Err(StoreError::SessionBound));
    assert_eq!(s.update_goal_pause("goal-1".into(), None), Err(StoreError::SessionBound));
    assert_eq!(s.reject_session_goal_legacy_mutation("nobody"), Ok(()));
}

#[test]
fn a_new_session_goal_is_checked_before_it_is_stored() {
    let mut s = TaskStore::new();
    let mut create = |task: TaskRecord, goal: GoalTaskRecord| s.create_or_replace_session_goal(task, goal).unwrap_err();

    let mut task = session_rec("g", " ");
    assert_eq!(create(task, goal_record("g", "o")), StoreError::SessionRequired);
    task = session_rec("g", " \0session");
    assert_eq!(create(task, goal_record("g", "o")), StoreError::SessionBlankInTables);
    assert_eq!(create(goal_rec("g", "t"), goal_record("g", "o")), StoreError::SessionRequired);
    task = session_rec("g", "s");
    task.status = TaskStatus::Paused;
    assert_eq!(create(task, goal_record("g", "o")), StoreError::NotFresh);
    task = session_rec("g", "s");
    task.finished_at = Some("then".into());
    assert_eq!(create(task, goal_record("g", "o")), StoreError::NotFresh);
    assert_eq!(create(session_rec("g", "s"), goal_record("g", " ")), StoreError::ObjectiveRequired);
    let pending = GoalTaskRecord { pending_call_id: Some("c".into()), pending_call_epoch: Some(0), ..goal_record("g", "o") };
    assert_eq!(create(session_rec("g", "s"), pending), StoreError::PendingOrIncomplete);
    let incomplete = GoalTaskRecord { accounting_state: GoalAccountingState::Missing, ..goal_record("g", "o") };
    assert_eq!(create(session_rec("g", "s"), incomplete), StoreError::PendingOrIncomplete);
    assert_eq!(
        create(session_rec("g", "s"), goal_record("h", "o")),
        StoreError::IdMismatch { task_id: "g".into(), goal_task_id: "h".into() }
    );
    let delegate = TaskRecord { session_id: Some("s".into()), ..rec("g", "main", 1, "b") };
    assert_eq!(create(delegate, goal_record("g", "o")), StoreError::NotGoalKind { task_id: "g".into() });
    assert!(s.rows.is_empty());
}

#[test]
fn one_session_holds_one_goal_at_a_time() {
    let mut s = started("goal-1", "session-1");
    let second = s.create_or_replace_session_goal(session_rec("goal-2", "session-1"), goal_record("goal-2", "next"));
    assert_ne!(second, Ok(GoalTransitionResult::Applied));
    assert_eq!(s.current_goal_for_session("session-1").unwrap().id, "goal-1");

    let epoch = epoch_of(&s, "session-1");
    assert_eq!(
        s.finish_session_goal("goal-1", "session-1", epoch, TaskStatus::Completed, Some(Text::Fixed("verified_completion"))),
        Ok(GoalTransitionResult::Applied)
    );
    assert_eq!(s.terminal_reason_for_session_goal("goal-1", "session-1"), Some(Text::Fixed("verified_completion")));
    assert_eq!(
        s.create_or_replace_session_goal(session_rec("goal-2", "session-1"), goal_record("goal-2", "next")),
        Ok(GoalTransitionResult::Applied)
    );
    assert_eq!(s.current_goal_for_session("session-1").unwrap().id, "goal-2");
    assert_eq!(
        s.create_or_replace_session_goal(session_rec("goal-2", "session-3"), goal_record("goal-2", "again")),
        Err(StoreError::IdExists)
    );
}

#[test]
fn finishing_stamps_the_time_of_the_clock() {
    let mut s = started("goal-1", "session-1");
    let epoch = epoch_of(&s, "session-1");
    assert_eq!(
        s.finish_session_goal("goal-1", "session-1", epoch, TaskStatus::Running, None),
        Err(StoreError::NotTerminal)
    );
    s.finish_session_goal("goal-1", "session-1", epoch, TaskStatus::Failed, None).unwrap();
    let stamp = s.rows[0].task.finished_at.clone().unwrap();
    assert!(chrono::DateTime::parse_from_rfc3339(&stamp).is_ok(), "{stamp}");
    assert!(stamp.ends_with("+00:00"));

    let mut s = started("goal-2", "session-2");
    let epoch = epoch_of(&s, "session-2");
    s.finish_session_goal_at("goal-2", "session-2", epoch, TaskStatus::Cancelled, None, "noon".into()).unwrap();
    assert_eq!(s.rows[0].task.finished_at.as_deref(), Some("noon"));
    assert_eq!(s.rows[0].task.status, TaskStatus::Cancelled);
}

#[test]
fn pause_and_resume_move_the_epoch_on() {
    let mut s = started("goal-1", "session-1");
    let first = epoch_of(&s, "session-1");
    assert_eq!(s.pause_session_goal("goal-1", "session-1", first, operator_pause()), GoalTransitionResult::Applied);
    assert_eq!(s.rows[0].task.status, TaskStatus::Paused);
    let second = epoch_of(&s, "session-1");
    assert!(second > first);
    assert_eq!(s.pause_session_goal("goal-1", "session-1", first, operator_pause()), GoalTransitionResult::Stale);
    assert_eq!(
        s.resume_session_goal("goal-1", "session-1", second, 9, "boot-9".into()),
        GoalTransitionResult::Applied
    );
    let task = s.current_goal_for_session("session-1").unwrap();
    assert_eq!(task.status, TaskStatus::Running);
    assert_eq!(task.owner_pid, 9);
    assert_eq!(task.owner_boot_id, "boot-9");
    assert!(task.execution_epoch > second);
    assert!(s.get_goal_task("goal-1").unwrap().pause_reason.is_none());
}

#[test]
fn settling_a_call_undoes_its_admission() {
    let mut s = started("goal-1", "session-1");
    let epoch = epoch_of(&s, "session-1");
    let before = s.get_goal_task("goal-1").unwrap();
    assert_eq!(
        s.admit_pending_operation("goal-1", "session-1", epoch, " ".into()),
        Err(StoreError::BlankCallId)
    );
    assert_eq!(
        s.admit_pending_operation("goal-1", "session-1", epoch, "call-1".into()),
        Ok(GoalTransitionResult::Applied)
    );
    assert!(s.has_call_outstanding("call-1"));
    assert_ne!(
        s.admit_pending_operation("goal-1", "session-1", epoch, "call-2".into()),
        Ok(GoalTransitionResult::Applied)
    );
    assert_eq!(
        s.settle_pending_operation("goal-1", "session-1", epoch, "call-1", GoalAccountingState::Complete),
        GoalTransitionResult::Applied
    );
    assert_eq!(s.get_goal_task("goal-1").unwrap(), before);
    assert_ne!(
        s.settle_pending_operation("goal-1", "session-1", epoch, "call-1", GoalAccountingState::Complete),
        GoalTransitionResult::Applied
    );
}

#[test]
fn one_call_is_outstanding_for_one_goal_only() {
    let mut s = started("goal-1", "session-1");
    s.create_or_replace_session_goal(session_rec("goal-2", "session-2"), goal_record("goal-2", "too")).unwrap();
    let first = epoch_of(&s, "session-1");
    let second = epoch_of(&s, "session-2");
    s.admit_pending_operation("goal-1", "session-1", first, "call".into()).unwrap();
    assert_eq!(
        s.admit_pending_operation("goal-2", "session-2", second, "call".into()),
        Err(StoreError::PendingCallTaken)
    );
}

#[test]
fn limits_of_a_session_goal_change_under_its_epoch() {
    let mut s = started("goal-1", "session-1");
    let epoch = epoch_of(&s, "session-1");
    assert_eq!(
        s.update_session_goal_limits("goal-1", "session-1", epoch, Some(5), Some(usd(0.5))),
        Ok(GoalTransitionResult::Applied)
    );
    assert_eq!(s.get_goal_task("goal-1").unwrap().effective_token_limit, Some(5));
    assert_eq!(
        s.update_session_goal_limits("goal-1", "session-1", epoch, None, Some(usd(f64::NAN))),
        Err(StoreError::CostLimitInvalid)
    );
    assert_ne!(
        s.update_session_goal_limits("goal-1", "other-session", epoch, Some(5), None),
        Ok(GoalTransitionResult::Applied)
    );
}

#[test]
fn a_terminal_session_goal_can_be_deleted() {
    let mut s = started("goal-1", "session-1");
    let epoch = epoch_of(&s, "session-1");
    assert_eq!(s.delete_session_goal("goal-1", "other", epoch), s.transition_failure("goal-1"));
    assert!(s.contains_id("goal-1"));
    assert_eq!(s.transition_failure("goal-9"), GoalTransitionResult::Missing);
    assert_eq!(s.delete_session_goal("goal-1", "session-1", epoch), GoalTransitionResult::Stale);
    s.finish_session_goal("goal-1", "session-1", epoch, TaskStatus::Completed, None).unwrap();
    let ended = s.rows[0].task.execution_epoch;
    assert_eq!(s.delete_session_goal("goal-1", "session-1", ended), GoalTransitionResult::Applied);
    assert!(!s.contains_id("goal-1"));
}

#[test]
fn a_new_boot_fences_the_goals_of_the_last_one() {
    let mut s = started("idle", "session-1");
    s.create_or_replace_session_goal(session_rec("calling", "session-2"), goal_record("calling", "too")).unwrap();
    let epoch = epoch_of(&s, "session-2");
    s.admit_pending_operation("calling", "session-2", epoch, "call".into()).unwrap();
    let idle_epoch = epoch_of(&s, "session-1");

    assert_eq!(s.reconcile_goal_boot_state_at("boot-2", "noon".into()), 2);

    let idle = s.current_goal_for_session("session-1").unwrap();
    assert_eq!(idle.status, TaskStatus::Paused);
    assert!(idle.execution_epoch > idle_epoch);
    assert_eq!(s.get_goal_task("idle").unwrap().pause_reason, Some(GoalPauseReason::DaemonRestart));
    assert_eq!(
        s.resume_session_goal("idle", "session-1", idle.execution_epoch, 2, "boot-2".into()),
        GoalTransitionResult::Applied
    );
    assert_eq!(s.rows[1].task.status, TaskStatus::Failed);
    assert_eq!(s.rows[1].task.finished_at.as_deref(), Some("noon"));
    assert_eq!(s.reconcile_goal_boot_state("boot-2"), 0);
}

#[test]
fn words_of_the_tables_read_back() {
    for status in [
        TaskStatus::Running,
        TaskStatus::Paused,
        TaskStatus::Completed,
        TaskStatus::Failed,
        TaskStatus::Cancelled,
        TaskStatus::Lost,
        TaskStatus::TimedOut,
    ] {
        assert_eq!(status_from_db(status_to_db(status)), Some(status));
    }
    assert_eq!(status_from_db("future_paused"), None);
    for state in [
        GoalAccountingState::Complete,
        GoalAccountingState::Missing,
        GoalAccountingState::Invalid,
        GoalAccountingState::OutcomeUnknown,
    ] {
        assert_eq!(accounting_state_from_db(accounting_state_to_db(state)), Some(state));
    }
    assert_eq!(accounting_state_from_db("odd"), None);
    assert_eq!(token_limit_to_db(7), Ok(7));
    assert_eq!(token_limit_from_db(Some(7)), Ok(Some(7)));
    assert_eq!(token_limit_from_db(Some(-7)), Err(LimitFault::NegativeTokens { tokens: -7 }));
    assert_eq!(cost_limit_to_db(usd(0.0)), Ok(usd(0.0)));
    assert_eq!(cost_limit_from_db(Some(usd(0.25))), Ok(Some(usd(0.25))));
    assert_eq!(
        cost_limit_from_db(Some(usd(f64::INFINITY))),
        Err(LimitFault::InvalidCost { cost: usd(f64::INFINITY) })
    );
    assert!(is_store_blank("  ") && !is_store_blank("a"));
}

#[test]
fn refusals_have_words() {
    assert_eq!(StoreError::IdExists.text(), Text::Fixed("new session goal task id already exists"));
    assert_eq!(
        StoreError::SessionBound.text(),
        Text::Fixed("session-bound goals require guarded goal transition APIs")
    );
    assert_eq!(
        LimitFault::NegativeTokens { tokens: -1 }.text(),
        Text::Fixed(
            "Conversion error from type Integer at index: 0, out of range integral type conversion attempted",
        )
    );
}

#[test]
fn a_plan_takes_up_where_the_database_is() {
    assert_eq!(
        migrate_schema(8, false),
        vec![MigrationStep::Batch(OBJECTIVE_GUARD, "apply immutable goal objective guard")]
    );
    let fresh = migrate_schema(0, false);
    assert!(matches!(fresh.first(), Some(MigrationStep::Batch(_, _))));
    let tail = migrate_schema(7, false);
    assert_eq!(tail.len(), 6);
    assert_eq!(fresh[fresh.len() - tail.len()..], tail[..]);
}

#[test]
fn goals_without_a_session_are_settled_once() {
    let mut s = TaskStore::new();
    insert(&mut s, goal_rec("legacy", "2026-06-18T00:00:00Z"), Some(goal_record("legacy", "old")));
    insert(&mut s, rec("delegate", "main", 1, "boot-1"), None);
    s.normalize_legacy_goals_at("noon".into());
    assert_eq!(s.rows[0].task.status, TaskStatus::Failed);
    assert_eq!(s.rows[0].error, Some(Text::Fixed("legacy_goal_missing_session")));
    assert_eq!(s.rows[0].task.finished_at.as_deref(), Some("noon"));
    assert_eq!(s.rows[1].task.status, TaskStatus::Running);
    let settled = s.rows[0].task.copy();
    s.normalize_legacy_goals_at("later".into());
    assert_eq!(s.rows[0].task, settled);
}

#[test]
fn an_active_goal_holds_its_context() {
    let mut s = TaskStore::new();
    let in_context = |id: &str, route: Option<&str>, status: TaskStatus| TaskRecord {
        originator_route: route.map(str::to_owned),
        status,
        ..goal_rec(id, "2026-06-18T00:00:00Z")
    };
    let running = |id: &str, route: Option<&str>| in_context(id, route, TaskStatus::Running);
    assert_eq!(s.create_goal(running("a", Some("room")), goal_record("a", "o"), None), Ok(()));
    assert_eq!(
        s.create_goal(running("b", Some("room")), goal_record("b", "o"), None),
        Err(StoreError::ContextTaken)
    );
    assert_eq!(s.create_goal(running("a", Some("hall")), goal_record("a", "o"), None), Err(StoreError::TaskIdTaken));
    assert_eq!(s.create_goal(running("b", Some("hall")), goal_record("b", "o"), None), Ok(()));
    // A route that is missing and one that is empty are one context.
    assert_eq!(s.create_goal(running("c", None), goal_record("c", "o"), None), Ok(()));
    assert_eq!(s.create_goal(running("d", Some("")), goal_record("d", "o"), None), Err(StoreError::ContextTaken));
    // Only active goals hold one.
    let ended = in_context("d", Some("room"), TaskStatus::Completed);
    assert_eq!(s.create_goal(ended, goal_record("d", "o"), None), Ok(()));
    s.rows[0].task.status = TaskStatus::Cancelled;
    assert_eq!(s.create_goal(running("e", Some("room")), goal_record("e", "o"), None), Ok(()));
    assert_eq!(s.rows.len(), 5);
    assert_eq!(s.latest_active_goal_for_context("main", Some("room"), None).unwrap().id, "e");

    let mut refuse = |goal: GoalTaskRecord| s.create_goal(running("f", Some("attic")), goal, None).unwrap_err();
    assert_eq!(
        refuse(goal_record("g", "o")),
        StoreError::IdMismatch { task_id: "f".into(), goal_task_id: "g".into() }
    );
    assert_eq!(
        refuse(GoalTaskRecord { effective_cost_limit_usd: Some(usd(-1.0)), ..goal_record("f", "o") }),
        StoreError::CostLimitInvalid
    );
    assert_eq!(
        refuse(GoalTaskRecord { pending_call_id: Some("call".into()), ..goal_record("f", "o") }),
        StoreError::PendingPairInvalid
    );
    s.rows[1].goal.as_mut().unwrap().pending_call_id = Some("call".into());
    s.rows[1].goal.as_mut().unwrap().pending_call_epoch = Some(1);
    let calling = GoalTaskRecord {
        pending_call_id: Some("call".into()),
        pending_call_epoch: Some(1),
        ..goal_record("f", "o")
    };
    assert_eq!(
        s.create_goal(running("f", Some("attic")), calling, None),
        Err(StoreError::PendingCallTaken)
    );
    assert_eq!(
        s.create_goal(rec("f", "main", 1, "boot-1"), goal_record("f", "o"), None),
        Err(StoreError::NotGoalKind { task_id: "f".into() })
    );
    assert_eq!(s.rows.len(), 5);
}

#[test]
fn blank_sessions_do_not_collide_once_they_are_normalized() {
    let mut s = TaskStore::new();
    for (id, session) in [("a", Some(" ")), ("b", Some(" ")), ("c", Some("room")), ("d", None)] {
        let task = TaskRecord { session_id: session.map(str::to_owned), ..goal_rec(id, "t") };
        insert(&mut s, task, Some(goal_record(id, "o")));
    }
    s.normalize_legacy_goals_at("noon".into());
    let sessions: Vec<Option<&str>> = s.rows.iter().map(|row| row.task.session_id.as_deref()).collect();
    assert_eq!(sessions, vec![None, None, Some("room"), None]);
    let active: Vec<&str> =
        s.rows.iter().filter(|row| row.task.status.is_active()).map(|row| row.task.id.as_str()).collect();
    assert_eq!(active, vec!["c"]);
}
