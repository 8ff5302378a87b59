//! Goals that a restart interrupted.
use zeroclaw_runtime::error::GoalError;
use zeroclaw_runtime::goal_task::{
    pause_reason_from_db, pause_reason_to_db, GoalBlockerKind, GoalPauseReason, GoalTaskRecord,
};
use zeroclaw_runtime::message::plain;
use zeroclaw_runtime::payload::{Fields, Json};
use zeroclaw_runtime::recovery::{
    pause_recovered_goals_without_channel_executor, recovered_goal_continuation_blocked_pause, RecoveredGoalBatch,
    RecoveredGoalContinuationBlocker, RecoveryProgress, RecoveryQueue, RecoveryReply, RecoveryRequest,
};
use zeroclaw_runtime::store::rows::{goal_task_to_row, row_to_goal_task, StoredGoal};
use zeroclaw_runtime::task::{TaskKind, TaskRecord, TaskStatus};

fn running_task(id: &str, kind: TaskKind, boot_id: &str) -> TaskRecord {
    TaskRecord {
        id: id.into(),
        kind,
        agent: "main".into(),
        status: TaskStatus::Running,
        owner_pid: 1,
        owner_boot_id: boot_id.into(),
        heartbeat_at: None,
        depth: 0,
        parent_id: None,
        originator_route: None,
        delivered: false,
        idem_key: None,
        principal_id: None,
        session_id: None,
        execution_epoch: 0,
        started_at: "2026-06-18T00:00:00Z".into(),
        finished_at: None,
    }
}

fn queue(ids: &[&str]) -> RecoveryQueue {
    RecoveryQueue::new(ids.iter().map(|id| id.to_string()).collect())
}

#[test]
fn recovered_goal_blocker_payloads_contain_only_stable_reason_codes() {
    for (blocker, code) in [
        (RecoveredGoalContinuationBlocker::AgentUnavailable, "agent_unavailable"),
        (RecoveredGoalContinuationBlocker::ProviderUnavailable, "provider_unavailable"),
        (RecoveredGoalContinuationBlocker::MissingContinuationContext, "missing_continuation_context"),
        (RecoveredGoalContinuationBlocker::ContinuationContextReadFailed, "continuation_context_read_failed"),
        (RecoveredGoalContinuationBlocker::InvalidContinuationContext, "invalid_continuation_context"),
        (RecoveredGoalContinuationBlocker::MissingGoalExtension, "missing_goal_extension"),
        (RecoveredGoalContinuationBlocker::GoalExtensionReadFailed, "goal_extension_read_failed"),
        (RecoveredGoalContinuationBlocker::ChannelUnavailable, "channel_unavailable"),
        (RecoveredGoalContinuationBlocker::ChannelOwnerUnavailable, "channel_owner_unavailable"),
        (RecoveredGoalContinuationBlocker::QueueUnavailable, "queue_unavailable"),
    ] {
        let pause = recovered_goal_continuation_blocked_pause(blocker);
        assert_eq!(
            pause.blockers[0].payload,
            Some(Json::Object(Box::new(Fields::Field("reason_code", Json::Word(code), Box::new(Fields::End))))),
            "{code} payload must not duplicate runtime state"
        );
        assert_eq!(pause.reason, GoalPauseReason::DaemonRestart);
        assert_eq!(pause.blockers.len(), 1);
        assert_eq!(pause.blockers[0].kind, GoalBlockerKind::RestartRecovery);
        assert_eq!(blocker.code(), code);
    }
}

#[test]
fn recovered_goal_lease_restores_after_batch_commit() {
    let mut handle = queue(&["goal-1"]);
    let mut batch = RecoveredGoalBatch::take(&mut handle);
    let mut lease = batch.lease("goal-1");
    batch.commit();
    batch.release(&mut handle);
    assert!(handle.take_recovered_goal_ids().is_empty());

    lease.release(&mut handle);

    assert_eq!(handle.take_recovered_goal_ids(), vec!["goal-1"]);
}

#[test]
fn committed_recovered_goal_lease_does_not_restore() {
    let mut handle = queue(&["goal-1"]);
    let mut batch = RecoveredGoalBatch::take(&mut handle);
    let mut lease = batch.lease("goal-1");
    batch.commit();
    batch.release(&mut handle);

    lease.commit();
    lease.release(&mut handle);

    assert!(handle.take_recovered_goal_ids().is_empty());
}

#[test]
fn reload_queues_only_current_boot_running_goals_once() {
    let running = vec![
        running_task("current-goal", TaskKind::Goal, "current-boot"),
        running_task("prior-goal", TaskKind::Goal, "prior-boot"),
        running_task("delegate", TaskKind::Delegate, "current-boot"),
    ];
    let mut handle = queue(&[]);

    assert_eq!(handle.queue_running_goals_for_reload(&running, "current-boot"), 1);
    assert_eq!(handle.queue_running_goals_for_reload(&running, "current-boot"), 0);
    assert_eq!(handle.take_recovered_goal_ids(), vec!["current-goal"]);
}

#[test]
fn no_channel_pause_restores_entire_batch_after_failure() {
    let mut tables: Vec<TaskRecord> = ["paused-first", "still-pending", "missing-goal-extension"]
        .into_iter()
        .map(|id| running_task(id, TaskKind::Goal, "current-boot"))
        .collect();
    let extensions = ["paused-first", "still-pending"];
    let mut handle = queue(&["paused-first", "missing-goal-extension", "still-pending"]);
    let mut batch = RecoveredGoalBatch::take(&mut handle);
    let mut replies: Vec<RecoveryReply> = Vec::new();
    let error = loop {
        match pause_recovered_goals_without_channel_executor(batch.task_ids(), &replies) {
            RecoveryProgress::Ask(RecoveryRequest::ReadTask(id)) => {
                replies.push(RecoveryReply::Task(tables.iter().find(|task| task.id == id).map(|task| task.copy())));
            }
            RecoveryProgress::Ask(RecoveryRequest::PauseRunning { task_id, pause }) => {
                assert_eq!(
                    pause,
                    recovered_goal_continuation_blocked_pause(RecoveredGoalContinuationBlocker::ChannelUnavailable)
                );
                replies.push(if extensions.contains(&task_id.as_str()) {
                    tables.iter_mut().find(|task| task.id == task_id).unwrap().status = TaskStatus::Paused;
                    RecoveryReply::Paused(true)
                } else {
                    RecoveryReply::Failed(GoalError::new(plain("no goal extension row")))
                });
            }
            RecoveryProgress::Fail(error) => break error,
            RecoveryProgress::Done(_) => panic!("missing goal extension must fail the atomic pause"),
        }
    };
    batch.release(&mut handle);

    assert!(error.text.spell().unwrap().contains("missing-goal-extension"));
    assert_eq!(
        error.text.spell().as_deref(),
        Some("pause recovered goal missing-goal-extension without channel executor")
    );
    assert_eq!(
        handle.take_recovered_goal_ids(),
        vec!["paused-first", "missing-goal-extension", "still-pending"]
    );
    assert_eq!(tables[0].status, TaskStatus::Paused);
    assert_eq!(tables[1].status, TaskStatus::Running);
}

#[test]
fn a_goal_that_cannot_be_read_ends_the_pausing() {
    let ids = vec!["unread".to_string()];
    let replies = vec![RecoveryReply::Failed(GoalError::new(plain("task store is unavailable")))];
    match pause_recovered_goals_without_channel_executor(&ids, &replies) {
        RecoveryProgress::Fail(error) => {
            assert_eq!(error.text.spell().as_deref(), Some("read recovered goal unread before pausing"));
        }
        other => panic!("the read failed: {other:?}"),
    }
}

#[test]
fn goals_that_are_not_running_any_more_are_left_alone() {
    let ids = vec!["gone".to_string(), "running".to_string(), "paused".to_string()];
    let mut paused = running_task("paused", TaskKind::Goal, "boot");
    paused.status = TaskStatus::Paused;
    let replies = vec![
        RecoveryReply::Task(None),
        RecoveryReply::Task(Some(running_task("running", TaskKind::Goal, "boot"))),
        RecoveryReply::Paused(true),
        RecoveryReply::Task(Some(paused)),
    ];
    assert_eq!(pause_recovered_goals_without_channel_executor(&ids, &replies), RecoveryProgress::Done(1));
}

#[test]
fn restoring_keeps_what_came_in_meanwhile() {
    let mut handle = queue(&["a", "b"]);
    let mut batch = RecoveredGoalBatch::take(&mut handle);
    assert!(!handle.holds("a"));
    let running = vec![
        running_task("c", TaskKind::Goal, "boot"),
        running_task("b", TaskKind::Goal, "boot"),
    ];
    assert_eq!(handle.queue_running_goals_for_reload(&running, "boot"), 2);
    batch.release(&mut handle);
    let mut ids = handle.take_recovered_goal_ids();
    ids.sort();
    assert_eq!(ids, vec!["a", "b", "c"]);
}

#[test]
fn daemon_restart_pause_reason_accepts_legacy_alias() {
    assert_eq!(pause_reason_from_db(Some("daemon_restart".into())), Ok(Some(GoalPauseReason::DaemonRestart)));
}

#[test]
fn every_goal_pause_reason_remains_readable_from_persisted_control_state() {
    let reasons = [
        GoalPauseReason::OperatorPaused,
        GoalPauseReason::NeedsUserInput,
        GoalPauseReason::HumanEscalation,
        GoalPauseReason::ExternalDependency,
        GoalPauseReason::ProviderUnavailable,
        GoalPauseReason::VerifierBlocked,
        GoalPauseReason::BudgetExhausted,
        GoalPauseReason::BudgetUnavailable,
        GoalPauseReason::DaemonRestart,
    ];
    for reason in reasons {
        let wire_name = match reason {
            GoalPauseReason::OperatorPaused => "operator_paused",
            GoalPauseReason::NeedsUserInput => "needs_user_input",
            GoalPauseReason::HumanEscalation => "human_escalation",
            GoalPauseReason::ExternalDependency => "external_dependency",
            GoalPauseReason::ProviderUnavailable => "provider_unavailable",
            GoalPauseReason::VerifierBlocked => "verifier_blocked",
            GoalPauseReason::BudgetExhausted => "budget_exhausted",
            GoalPauseReason::BudgetUnavailable => "budget_unavailable",
            GoalPauseReason::DaemonRestart => "daemon_restarted",
        };
        assert_eq!(pause_reason_to_db(reason), wire_name);
        assert_eq!(pause_reason_from_db(Some(wire_name.into())), Ok(Some(reason)));
    }
    assert_eq!(pause_reason_from_db(None), Ok(None));
    assert!(pause_reason_from_db(Some("future_reason".into())).is_err());
}

#[test]
fn goal_task_loads_without_effective_limits() {
    let rec = row_to_goal_task(StoredGoal {
        task_id: "goal-1".into(),
        objective: "ship goal mode".into(),
        effective_token_limit: None,
        effective_cost_limit_usd: None,
        pause_reason: None,
        pause_description: None,
        blockers: Ok(Vec::new()),
        pending_call_id: None,
        pending_call_epoch: None,
        accounting_state: "complete".into(),
    })
    .unwrap();
    assert_eq!(rec.task_id, "goal-1");
    assert!(rec.effective_token_limit.is_none());
    assert!(rec.effective_cost_limit_usd.is_none());
    assert!(rec.pause_reason.is_none());
    assert!(rec.pause_description.is_none());
    assert!(rec.blockers.is_empty());
}

#[test]
fn a_stored_goal_reads_back() {
    let goal = GoalTaskRecord {
        task_id: "goal-1".into(),
        objective: "ship it".into(),
        effective_token_limit: Some(7),
        pause_reason: Some(GoalPauseReason::DaemonRestart),
        pause_description: Some(plain("restarted")),
        ..GoalTaskRecord::default()
    };
    let row = goal_task_to_row(goal.copy()).unwrap();
    assert_eq!(row.effective_token_limit, Some(7));
    assert_eq!(row.pause_reason.as_deref(), Some("daemon_restarted"));
    assert_eq!(row_to_goal_task(row).unwrap(), goal);
}
