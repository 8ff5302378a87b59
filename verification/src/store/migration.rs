//! The schema and its history.
//!
//! A database says which version it is at. The plan lists what is left to do,
//! in order; running it is up to the caller.
use vstd::prelude::*;
#[allow(unused_imports)]
use vstd::string::*;

use super::session::{finish_time, first_finish};
use super::{goal_session, is_store_blank, pending_call, row_valid, store_blank, valid, TaskRow, TaskRowView, TaskStore};
use crate::clock::{is_timestamp, now_rfc3339};
use crate::message::Text;
use crate::task::{TaskKind, TaskRecord, TaskStatus};

verus! {

/// The extension table of goals.
pub const SCHEMA_V1: &'static str = "CREATE TABLE IF NOT EXISTS goal_tasks (
    task_id        TEXT PRIMARY KEY
                   REFERENCES tasks(id) ON DELETE CASCADE,
    objective      TEXT NOT NULL
);
PRAGMA user_version = 1;";

/// Marks the limit columns as present.
pub const SCHEMA_V2: &'static str = "PRAGMA user_version = 2;";

/// Marks the pause columns as present.
pub const SCHEMA_V3: &'static str = "PRAGMA user_version = 3;";

/// One active goal per agent, route and principal.
pub const SCHEMA_V4: &'static str = "CREATE UNIQUE INDEX IF NOT EXISTS idx_tasks_active_goal_context
   ON tasks(
       agent,
       COALESCE(originator_route, ''),
       COALESCE(principal_id, '')
   )
   WHERE kind = 'goal'
     AND status NOT IN ('completed','failed','cancelled','lost','timed_out');
PRAGMA user_version = 4;";

/// The table of continuation contexts.
pub const SCHEMA_V5: &'static str = "CREATE TABLE IF NOT EXISTS task_continuation_contexts (
    task_id      TEXT PRIMARY KEY
                 REFERENCES tasks(id) ON DELETE CASCADE,
    context_json TEXT NOT NULL
);
PRAGMA user_version = 5;";

/// Extensions belong to goals only.
pub const SCHEMA_V6: &'static str = "CREATE TRIGGER IF NOT EXISTS trg_goal_tasks_require_goal_kind
   BEFORE INSERT ON goal_tasks
   FOR EACH ROW
   WHEN COALESCE((SELECT kind FROM tasks WHERE id = NEW.task_id), '') != 'goal'
   BEGIN
       SELECT RAISE(ABORT, 'goal_tasks.task_id must reference TaskKind::Goal');
   END;
PRAGMA user_version = 6;";

/// Limits are finite and not negative; continuation contexts belong to goals.
pub const SCHEMA_V7: &'static str = "CREATE TRIGGER IF NOT EXISTS trg_goal_tasks_effective_limits_insert
   BEFORE INSERT ON goal_tasks
   FOR EACH ROW
   WHEN (NEW.effective_token_limit IS NOT NULL AND NEW.effective_token_limit < 0)
     OR (NEW.effective_cost_limit_usd IS NOT NULL
         AND NOT (NEW.effective_cost_limit_usd >= 0.0
                  AND NEW.effective_cost_limit_usd <= 1.7976931348623157e308))
   BEGIN
       SELECT RAISE(ABORT, 'goal effective limits must be non-negative finite values');
   END;
CREATE TRIGGER IF NOT EXISTS trg_goal_tasks_effective_limits_update
   BEFORE UPDATE OF effective_token_limit, effective_cost_limit_usd ON goal_tasks
   FOR EACH ROW
   WHEN (NEW.effective_token_limit IS NOT NULL AND NEW.effective_token_limit < 0)
     OR (NEW.effective_cost_limit_usd IS NOT NULL
         AND NOT (NEW.effective_cost_limit_usd >= 0.0
                  AND NEW.effective_cost_limit_usd <= 1.7976931348623157e308))
   BEGIN
       SELECT RAISE(ABORT, 'goal effective limits must be non-negative finite values');
   END;
CREATE TRIGGER IF NOT EXISTS trg_task_continuation_contexts_require_goal_insert
   BEFORE INSERT ON task_continuation_contexts
   FOR EACH ROW
   WHEN NOT EXISTS (
       SELECT 1
         FROM tasks
         JOIN goal_tasks ON goal_tasks.task_id = tasks.id
        WHERE tasks.id = NEW.task_id
          AND tasks.kind = 'goal'
   )
   BEGIN
       SELECT RAISE(ABORT, 'task_continuation_contexts.task_id must reference a goal task');
   END;
CREATE TRIGGER IF NOT EXISTS trg_task_continuation_contexts_require_goal_update
   BEFORE UPDATE OF task_id ON task_continuation_contexts
   FOR EACH ROW
   WHEN NOT EXISTS (
       SELECT 1
         FROM tasks
         JOIN goal_tasks ON goal_tasks.task_id = tasks.id
        WHERE tasks.id = NEW.task_id
          AND tasks.kind = 'goal'
   )
   BEGIN
       SELECT RAISE(ABORT, 'task_continuation_contexts.task_id must reference a goal task');
   END;
PRAGMA user_version = 7;";

/// One goal per session, bound for good; paired and unique outstanding calls.
pub const SCHEMA_V8: &'static str = "DROP INDEX IF EXISTS idx_tasks_active_goal_context;
CREATE UNIQUE INDEX IF NOT EXISTS idx_goal_tasks_current_session
    ON tasks(session_id) WHERE kind = 'goal' AND session_id IS NOT NULL;
CREATE TRIGGER IF NOT EXISTS trg_goal_tasks_require_session_insert
    BEFORE INSERT ON tasks FOR EACH ROW
    WHEN NEW.kind = 'goal'
         AND (NEW.session_id IS NULL OR length(trim(NEW.session_id)) = 0)
    BEGIN SELECT RAISE(ABORT, 'goal tasks require a nonblank session_id'); END;
CREATE TRIGGER IF NOT EXISTS trg_goal_tasks_require_session_update
    BEFORE UPDATE OF kind, session_id ON tasks FOR EACH ROW
    WHEN NEW.kind = 'goal'
         AND (NEW.session_id IS NULL OR length(trim(NEW.session_id)) = 0)
    BEGIN SELECT RAISE(ABORT, 'goal tasks require a nonblank session_id'); END;
CREATE TRIGGER IF NOT EXISTS trg_goal_tasks_session_immutable
    BEFORE UPDATE OF kind, session_id ON tasks FOR EACH ROW
    WHEN OLD.kind = 'goal'
         AND (NEW.kind != 'goal' OR NEW.session_id IS NOT OLD.session_id)
    BEGIN SELECT RAISE(ABORT, 'goal task session_id is immutable'); END;
CREATE TRIGGER IF NOT EXISTS trg_goal_tasks_reject_promotion
    BEFORE UPDATE OF kind ON tasks FOR EACH ROW
    WHEN OLD.kind != 'goal' AND NEW.kind = 'goal'
    BEGIN SELECT RAISE(ABORT, 'goal tasks require guarded admission'); END;
CREATE UNIQUE INDEX IF NOT EXISTS idx_goal_tasks_pending_call
    ON goal_tasks(pending_call_id) WHERE pending_call_id IS NOT NULL;
CREATE TRIGGER IF NOT EXISTS trg_goal_tasks_pending_pair_insert
    BEFORE INSERT ON goal_tasks FOR EACH ROW
    WHEN (NEW.pending_call_id IS NULL) != (NEW.pending_call_epoch IS NULL)
         OR (NEW.pending_call_id IS NOT NULL
             AND (length(trim(NEW.pending_call_id)) = 0
                  OR typeof(NEW.pending_call_epoch) != 'integer'
                  OR NEW.pending_call_epoch < 1))
    BEGIN SELECT RAISE(ABORT, 'goal pending call id and epoch must be paired and valid'); END;
CREATE TRIGGER IF NOT EXISTS trg_goal_tasks_pending_pair_update
    BEFORE UPDATE OF pending_call_id, pending_call_epoch ON goal_tasks FOR EACH ROW
    WHEN (NEW.pending_call_id IS NULL) != (NEW.pending_call_epoch IS NULL)
         OR (NEW.pending_call_id IS NOT NULL
             AND (length(trim(NEW.pending_call_id)) = 0
                  OR typeof(NEW.pending_call_epoch) != 'integer'
                  OR NEW.pending_call_epoch < 1))
    BEGIN SELECT RAISE(ABORT, 'goal pending call id and epoch must be paired and valid'); END;
CREATE TRIGGER IF NOT EXISTS trg_goal_tasks_state_values_insert
    BEFORE INSERT ON goal_tasks FOR EACH ROW
    WHEN NEW.accounting_state NOT IN ('complete', 'missing', 'invalid', 'outcome_unknown')
    BEGIN SELECT RAISE(ABORT, 'goal accounting state is invalid'); END;
CREATE TRIGGER IF NOT EXISTS trg_goal_tasks_state_values_update
    BEFORE UPDATE OF accounting_state ON goal_tasks FOR EACH ROW
    WHEN NEW.accounting_state NOT IN ('complete', 'missing', 'invalid', 'outcome_unknown')
    BEGIN SELECT RAISE(ABORT, 'goal accounting state is invalid'); END;";

/// The objective of a goal never changes.
pub const OBJECTIVE_GUARD: &'static str = "CREATE TRIGGER IF NOT EXISTS trg_goal_tasks_objective_immutable
BEFORE UPDATE OF objective ON goal_tasks
FOR EACH ROW
WHEN NEW.objective IS NOT OLD.objective
BEGIN SELECT RAISE(ABORT, 'goal objective is immutable'); END;";

/// One thing to do to the database.
#[derive(Debug, PartialEq, Eq)]
pub enum MigrationStep {
    /// Run a batch of statements; the second text says what for.
    Batch(&'static str, &'static str),
    /// Add a column to the goal extension table unless it is there: its name,
    /// and the statement that adds it.
    AddColumn(&'static str, &'static str),
    /// Bring goals of earlier schemas under the session rules.
    NormalizeLegacyGoals,
}

/// The latest version that has steps of its own.
pub const LATEST_VERSION: i64 = 8;

/// What leads from version `k - 1` to version `k`. The index of version 4 is
/// superseded by version 8 and may be left out.
pub open spec fn version_steps(k: int, skip_superseded_context_index: bool) -> Seq<MigrationStep> {
    if k == 1 {
        seq![MigrationStep::Batch(SCHEMA_V1, "apply control-plane schema v1")]
    } else if k == 2 {
        seq![
            MigrationStep::AddColumn(
                "effective_token_limit",
                "ALTER TABLE goal_tasks ADD COLUMN effective_token_limit INTEGER",
            ),
            MigrationStep::AddColumn(
                "effective_cost_limit_usd",
                "ALTER TABLE goal_tasks ADD COLUMN effective_cost_limit_usd REAL",
            ),
            MigrationStep::Batch(SCHEMA_V2, "mark control-plane schema v2"),
        ]
    } else if k == 3 {
        seq![
            MigrationStep::AddColumn("pause_reason", "ALTER TABLE goal_tasks ADD COLUMN pause_reason TEXT"),
            MigrationStep::AddColumn("pause_description", "ALTER TABLE goal_tasks ADD COLUMN pause_description TEXT"),
            MigrationStep::AddColumn(
                "blockers_json",
                "ALTER TABLE goal_tasks ADD COLUMN blockers_json TEXT NOT NULL DEFAULT '[]'",
            ),
            MigrationStep::Batch(SCHEMA_V3, "mark control-plane schema v3"),
        ]
    } else if k == 4 {
        if skip_superseded_context_index {
            seq![]
        } else {
            seq![MigrationStep::Batch(SCHEMA_V4, "apply control-plane schema v4")]
        }
    } else if k == 5 {
        seq![MigrationStep::Batch(SCHEMA_V5, "apply control-plane schema v5")]
    } else if k == 6 {
        seq![MigrationStep::Batch(SCHEMA_V6, "apply control-plane schema v6")]
    } else if k == 7 {
        seq![MigrationStep::Batch(SCHEMA_V7, "apply control-plane schema v7")]
    } else if k == 8 {
        seq![
            MigrationStep::AddColumn("pending_call_id", "ALTER TABLE goal_tasks ADD COLUMN pending_call_id TEXT"),
            MigrationStep::AddColumn(
                "pending_call_epoch",
                "ALTER TABLE goal_tasks ADD COLUMN pending_call_epoch INTEGER",
            ),
            MigrationStep::AddColumn(
                "accounting_state",
                "ALTER TABLE goal_tasks ADD COLUMN accounting_state TEXT NOT NULL DEFAULT 'complete'",
            ),
            MigrationStep::NormalizeLegacyGoals,
            MigrationStep::Batch(SCHEMA_V8, "apply control-plane schema v8"),
        ]
    } else {
        seq![]
    }
}

/// The steps of the versions above `from`, up to and with `to`.
pub open spec fn steps_between(from: int, to: int, skip_superseded_context_index: bool) -> Seq<MigrationStep>
    decreases to - from,
{
    if from >= to {
        seq![]
    } else {
        steps_between(from, to - 1, skip_superseded_context_index) + version_steps(to, skip_superseded_context_index)
    }
}

/// Where the plan starts: a database without a version has none of the steps.
pub open spec fn starting_version(version: i64) -> int {
    if version < 0 {
        0
    } else {
        version as int
    }
}

/// Everything that is left to do, the objective guard last and always.
pub open spec fn migration_plan(version: i64, skip_superseded_context_index: bool) -> Seq<MigrationStep> {
    steps_between(starting_version(version), LATEST_VERSION as int, skip_superseded_context_index) + seq![
        MigrationStep::Batch(OBJECTIVE_GUARD, "apply immutable goal objective guard"),
    ]
}

fn steps_to_version(k: i64, skip_superseded_context_index: bool) -> (r: Vec<MigrationStep>)
    ensures
        r@ == version_steps(k as int, skip_superseded_context_index),
{
    let mut steps: Vec<MigrationStep> = Vec::new();
    if k == 1 {
        steps.push(MigrationStep::Batch(SCHEMA_V1, "apply control-plane schema v1"));
    } else if k == 2 {
        steps.push(
            MigrationStep::AddColumn(
                "effective_token_limit",
                "ALTER TABLE goal_tasks ADD COLUMN effective_token_limit INTEGER",
            ),
        );
        steps.push(
            MigrationStep::AddColumn(
                "effective_cost_limit_usd",
                "ALTER TABLE goal_tasks ADD COLUMN effective_cost_limit_usd REAL",
            ),
        );
        steps.push(MigrationStep::Batch(SCHEMA_V2, "mark control-plane schema v2"));
    } else if k == 3 {
        steps.push(MigrationStep::AddColumn("pause_reason", "ALTER TABLE goal_tasks ADD COLUMN pause_reason TEXT"));
        steps.push(
            MigrationStep::AddColumn("pause_description", "ALTER TABLE goal_tasks ADD COLUMN pause_description TEXT"),
        );
        steps.push(
            MigrationStep::AddColumn(
                "blockers_json",
                "ALTER TABLE goal_tasks ADD COLUMN blockers_json TEXT NOT NULL DEFAULT '[]'",
            ),
        );
        steps.push(MigrationStep::Batch(SCHEMA_V3, "mark control-plane schema v3"));
    } else if k == 4 {
        if !skip_superseded_context_index {
            steps.push(MigrationStep::Batch(SCHEMA_V4, "apply control-plane schema v4"));
        }
    } else if k == 5 {
        steps.push(MigrationStep::Batch(SCHEMA_V5, "apply control-plane schema v5"));
    } else if k == 6 {
        steps.push(MigrationStep::Batch(SCHEMA_V6, "apply control-plane schema v6"));
    } else if k == 7 {
        steps.push(MigrationStep::Batch(SCHEMA_V7, "apply control-plane schema v7"));
    } else if k == 8 {
        steps.push(
            MigrationStep::AddColumn("pending_call_id", "ALTER TABLE goal_tasks ADD COLUMN pending_call_id TEXT"),
        );
        steps.push(
            MigrationStep::AddColumn(
                "pending_call_epoch",
                "ALTER TABLE goal_tasks ADD COLUMN pending_call_epoch INTEGER",
            ),
        );
        steps.push(
            MigrationStep::AddColumn(
                "accounting_state",
                "ALTER TABLE goal_tasks ADD COLUMN accounting_state TEXT NOT NULL DEFAULT 'complete'",
            ),
        );
        steps.push(MigrationStep::NormalizeLegacyGoals);
        steps.push(MigrationStep::Batch(SCHEMA_V8, "apply control-plane schema v8"));
    }
    assert(steps@ =~= version_steps(k as int, skip_superseded_context_index));
    steps
}

/// What is left to do to a database at `version`.
pub fn migrate_schema(version: i64, skip_superseded_context_index: bool) -> (r: Vec<MigrationStep>)
    ensures
        r@ == migration_plan(version, skip_superseded_context_index),
{
    let mut plan: Vec<MigrationStep> = Vec::new();
    let start: i64 = if version < 0 { 0 } else { version };
    let mut k: i64 = start;
    while k < LATEST_VERSION
        invariant
            start <= k,
            k <= LATEST_VERSION || k == start,
            plan@ == steps_between(start as int, k as int, skip_superseded_context_index),
        decreases LATEST_VERSION - k,
    {
        k = k + 1;
        let mut steps = steps_to_version(k, skip_superseded_context_index);
        plan.append(&mut steps);
    }
    assert(steps_between(start as int, LATEST_VERSION as int, skip_superseded_context_index) == plan@);
    plan.push(MigrationStep::Batch(OBJECTIVE_GUARD, "apply immutable goal objective guard"));
    assert(plan@ =~= migration_plan(version, skip_superseded_context_index));
    plan
}

proof fn lemma_steps_split(from: int, mid: int, to: int, skip: bool)
    requires
        from <= mid <= to,
    ensures
        steps_between(from, to, skip) == steps_between(from, mid, skip) + steps_between(mid, to, skip),
    decreases to - mid,
{
    if mid == to {
        assert(steps_between(from, mid, skip) + steps_between(mid, to, skip) =~= steps_between(from, to, skip));
    } else {
        lemma_steps_split(from, mid, to - 1, skip);
        assert(steps_between(from, mid, skip) + steps_between(mid, to, skip) =~= (steps_between(from, mid, skip)
            + steps_between(mid, to - 1, skip)) + version_steps(to, skip));
    }
}

/// A database that stopped at a later version has exactly the rest of the
/// plan of an earlier one to do.
pub proof fn law_migration_resumes(version: i64, later: i64, skip_superseded_context_index: bool)
    requires
        0 <= version <= later <= LATEST_VERSION,
    ensures
        migration_plan(version, skip_superseded_context_index) == steps_between(
            version as int,
            later as int,
            skip_superseded_context_index,
        ) + migration_plan(later, skip_superseded_context_index),
{
    lemma_steps_split(version as int, later as int, LATEST_VERSION as int, skip_superseded_context_index);
    assert(migration_plan(version, skip_superseded_context_index) =~= steps_between(
        version as int,
        later as int,
        skip_superseded_context_index,
    ) + migration_plan(later, skip_superseded_context_index));
}

/// A goal whose session is blank has no session.
pub open spec fn unbound_if_blank(row: TaskRowView) -> TaskRowView {
    if row.task.kind is Goal && (row.task.session_id matches Some(session) && store_blank(session@)) {
        TaskRowView { task: TaskRecord { session_id: None, ..row.task }, ..row }
    } else {
        row
    }
}

/// A goal that has an objective.
pub open spec fn has_objective(row: TaskRowView) -> bool {
    row.goal matches Some(goal) && !store_blank(goal.objective@)
}

/// An active goal that lacks a session or an objective has failed; a recorded
/// reason and finish time stay.
pub open spec fn failed_if_unusable(row: TaskRowView, now: String) -> TaskRowView {
    if row.task.kind is Goal && row.task.status.active() && (row.task.session_id is None || !has_objective(row)) {
        TaskRowView {
            task: TaskRecord {
                status: TaskStatus::Failed,
                finished_at: finish_time(row.task.finished_at, now),
                ..row.task
            },
            error: match row.error {
                Some(error) => Some(error),
                None => Some(
                    Text::Fixed(
                        if row.task.session_id is None {
                            "legacy_goal_missing_session"
                        } else {
                            "legacy_goal_missing_objective"
                        },
                    ),
                ),
            },
            ..row
        }
    } else {
        row
    }
}

pub open spec fn normalized(row: TaskRowView, now: String) -> TaskRowView {
    failed_if_unusable(unbound_if_blank(row), now)
}

pub open spec fn normalized_rows(rows: Seq<TaskRowView>, now: String) -> Seq<TaskRowView> {
    rows.map_values(|row: TaskRowView| normalized(row, now))
}

impl TaskRow {
    fn normalize(&mut self, now: &String)
        ensures
            final(self)@ == normalized(old(self)@, *now),
    {
        if self.task.kind != TaskKind::Goal {
            return;
        }
        let blank_session = match &self.task.session_id {
            Some(session) => is_store_blank(session.as_str()),
            None => false,
        };
        if blank_session {
            self.task.session_id = None;
        }
        let objective = match &self.goal {
            Some(goal) => !is_store_blank(goal.objective.as_str()),
            None => false,
        };
        if self.task.status.is_active() && (self.task.session_id.is_none() || !objective) {
            self.task.status = TaskStatus::Failed;
            self.task.finished_at = first_finish(&self.task.finished_at, now);
            if self.error.is_none() {
                if self.task.session_id.is_none() {
                    self.error = Some(Text::Fixed("legacy_goal_missing_session"));
                } else {
                    self.error = Some(Text::Fixed("legacy_goal_missing_objective"));
                }
            }
        }
    }
}

impl TaskStore {
    /// Brings goals of earlier schemas under the session rules, as of `now`.
    pub fn normalize_legacy_goals_at(&mut self, now: String)
        ensures
            final(self)@ == normalized_rows(old(self)@, now),
    {
        let ghost before = self@;
        let mut i: usize = 0;
        while i < self.rows.len()
            invariant
                i <= self.rows.len(),
                self.rows.len() == before.len(),
                forall|j: int| 0 <= j < i ==> (#[trigger] self.rows@[j])@ == normalized(before[j], now),
                forall|j: int| i <= j < before.len() ==> (#[trigger] self.rows@[j])@ == before[j],
            decreases self.rows.len() - i,
        {
            assert(self.rows@[i as int]@ == before[i as int]);
            self.rows[i].normalize(&now);
            i = i + 1;
        }
        assert(self@ =~= normalized_rows(before, now));
    }

    /// Brings goals of earlier schemas under the session rules.
    pub fn normalize_legacy_goals(&mut self)
        ensures
            exists|now: String| is_timestamp(now@) && final(self)@ == #[trigger] normalized_rows(old(self)@, now),
    {
        let now = now_rfc3339();
        self.normalize_legacy_goals_at(now)
    }
}

/// After normalization every active goal has a session and an objective, and
/// doing it again changes nothing.
pub proof fn law_normalization_settles(rows: Seq<TaskRowView>, now: String, later: String)
    ensures
        forall|i: int|
            0 <= i < rows.len() && (#[trigger] normalized_rows(rows, now)[i]).task.kind is Goal && normalized_rows(
                rows,
                now,
            )[i].task.status.active() ==> {
                &&& normalized_rows(rows, now)[i].task.session_id matches Some(session) && !store_blank(session@)
                &&& has_objective(normalized_rows(rows, now)[i])
            },
        normalized_rows(normalized_rows(rows, now), later) == normalized_rows(rows, now),
{
    assert(normalized_rows(normalized_rows(rows, now), later) =~= normalized_rows(rows, now));
}

/// What a unique index over a column accepts: no two rows with the same value
/// in it. Rows without a value may be as many as they like.
pub open spec fn unique_over(rows: Seq<TaskRowView>, column: spec_fn(TaskRowView) -> Option<Seq<char>>) -> bool {
    forall|i: int, j: int|
        0 <= i < j < rows.len() && column(#[trigger] rows[i]) is Some ==> column(rows[i]) != column(#[trigger] rows[j])
}

/// The column of the index over current sessions.
pub open spec fn session_column() -> spec_fn(TaskRowView) -> Option<Seq<char>> {
    |row: TaskRowView| goal_session(row)
}

/// Where normalized rows are accepted by the index over current sessions, no
/// two goals share a session, every active goal has one of its own, and the
/// tables keep their constraints if they kept the older ones. The index
/// accepts them exactly where no two goals shared a session that is not blank.
pub proof fn law_migrated_sessions_are_distinct(rows: Seq<TaskRowView>, now: String)
    ensures
        ({
            let next = normalized_rows(rows, now);
            &&& unique_over(next, session_column()) == (forall|i: int, j: int|
                0 <= i < j < rows.len() && (goal_session(#[trigger] rows[i]) matches Some(session) && !store_blank(session))
                    ==> goal_session(rows[i]) != goal_session(#[trigger] rows[j]))
            &&& unique_over(next, session_column()) ==> {
                &&& forall|i: int, j: int|
                    0 <= i < j < next.len() && goal_session(#[trigger] next[i]) is Some ==> goal_session(next[i])
                        != goal_session(#[trigger] next[j])
                &&& forall|i: int, j: int|
                    0 <= i < next.len() && 0 <= j < next.len() && i != j && (#[trigger] next[i]).task.kind is Goal
                        && next[i].task.status.active() ==> goal_session(next[i]) is Some && goal_session(next[i])
                        != goal_session(#[trigger] next[j])
                &&& (forall|i: int| 0 <= i < rows.len() ==> row_valid(#[trigger] rows[i])) && (forall|i: int, j: int|
                    0 <= i < j < rows.len() ==> (#[trigger] rows[i]).task.id@ != (#[trigger] rows[j]).task.id@)
                    && unique_over(rows, |row: TaskRowView| pending_call(row)) ==> valid(next)
            }
        }),
{
    let next = normalized_rows(rows, now);
    law_normalization_settles(rows, now, now);
    assert forall|i: int| 0 <= i < rows.len() implies #[trigger] goal_session(next[i]) == (match goal_session(rows[i]) {
        Some(session) => if store_blank(session) {
            None
        } else {
            Some(session)
        },
        None => None,
    }) by {}
    let distinct = forall|i: int, j: int|
        0 <= i < j < rows.len() && (goal_session(#[trigger] rows[i]) matches Some(session) && !store_blank(session))
            ==> goal_session(rows[i]) != goal_session(#[trigger] rows[j]);
    if distinct {
        assert forall|i: int, j: int|
            0 <= i < j < next.len() && session_column()(#[trigger] next[i]) is Some implies session_column()(next[i])
            != session_column()(#[trigger] next[j]) by {
            assert(goal_session(rows[i]) != goal_session(rows[j]));
        }
    }
    if unique_over(next, session_column()) {
        assert forall|i: int, j: int|
            0 <= i < j < rows.len() && (goal_session(#[trigger] rows[i]) matches Some(session) && !store_blank(session))
            implies goal_session(rows[i]) != goal_session(#[trigger] rows[j]) by {
            assert(session_column()(next[i]) != session_column()(next[j]));
        }
        assert forall|i: int, j: int|
            0 <= i < j < next.len() && goal_session(#[trigger] next[i]) is Some implies goal_session(next[i])
            != goal_session(#[trigger] next[j]) by {
            assert(session_column()(next[i]) != session_column()(next[j]));
        }
        let old_constraints = (forall|i: int| 0 <= i < rows.len() ==> row_valid(#[trigger] rows[i])) && (forall|
            i: int,
            j: int,
        |
            0 <= i < j < rows.len() ==> (#[trigger] rows[i]).task.id@ != (#[trigger] rows[j]).task.id@) && unique_over(
            rows,
            |row: TaskRowView| pending_call(row),
        );
        if old_constraints {
            assert forall|i: int| 0 <= i < next.len() implies row_valid(#[trigger] next[i]) by {
                assert(row_valid(rows[i]));
            }
            assert forall|i: int, j: int| 0 <= i < j < next.len() implies (#[trigger] next[i]).task.id@ != (
            #[trigger] next[j]).task.id@ by {
                assert(rows[i].task.id@ != rows[j].task.id@);
            }
            assert forall|i: int, j: int|
                0 <= i < j < next.len() && pending_call(#[trigger] next[i]) is Some implies pending_call(next[i])
                != pending_call(#[trigger] next[j]) by {
                let column = |row: TaskRowView| pending_call(row);
                assert(column(rows[i]) != column(rows[j]));
            }
        }
    }
}

} // verus!
