//! Refusals of the store.
use vstd::prelude::*;
#[allow(unused_imports)]
use vstd::string::*;

use crate::message::{Text, Texts};

verus! {

/// Why the store refused an operation outright. Nothing has changed then.
#[derive(Debug, PartialEq, Eq)]
pub enum StoreError {
    /// The goal is bound to a session and only guarded transitions may touch it.
    SessionBound,
    /// A goal record was given for a task of another kind.
    NotGoalKind { task_id: String },
    /// Task row and extension row name different ids.
    IdMismatch { task_id: String, goal_task_id: String },
    /// A new goal has no session, or a blank one.
    SessionRequired,
    /// A session that the tables take for blank.
    SessionBlankInTables,
    /// A new goal is not running, or already carries a finish time.
    NotFresh,
    /// A new goal has no objective.
    ObjectiveRequired,
    /// A new goal carries an outstanding call or incomplete accounting.
    PendingOrIncomplete,
    /// The id of a new goal is taken.
    IdExists,
    /// The id of a task is taken.
    TaskIdTaken,
    /// Another active goal holds the context.
    ContextTaken,
    /// A token limit that the store cannot hold.
    TokenLimitOutOfRange { value: u64 },
    /// A cost limit that is not finite, or below zero.
    CostLimitInvalid,
    /// The goal has no extension row.
    ExtensionMissing { task_id: String },
    /// The task is not a goal, or has no extension row.
    NotAGoal { task_id: String },
    /// A goal can only finish in a terminal state.
    NotTerminal,
    /// The id of an outstanding call is blank.
    BlankCallId,
    /// An outstanding call without a usable id or epoch.
    PendingPairInvalid,
    /// The call is already outstanding for another goal.
    PendingCallTaken,
}

/// `before`, a text, `after`.
pub open spec fn phrase(before: &'static str, value: Text, after: &'static str) -> Texts {
    Texts::Item(Text::Fixed(before), Box::new(Texts::Item(value, Box::new(Texts::Item(Text::Fixed(after), Box::new(Texts::End))))))
}

/// The words of a refusal.
pub open spec fn error_text(error: StoreError) -> Text {
    match error {
        StoreError::SessionBound => Text::Fixed("session-bound goals require guarded goal transition APIs"),
        StoreError::NotGoalKind { task_id } => Text::Joined(
            "",
            Box::new(phrase("goal task ", Text::Plain(task_id), " must use TaskKind::Goal")),
        ),
        StoreError::IdMismatch { task_id, goal_task_id } => Text::Joined(
            "",
            Box::new(
                Texts::Item(
                    Text::Fixed("goal task id mismatch: TaskRecord id "),
                    Box::new(
                        Texts::Item(
                            Text::Plain(task_id),
                            Box::new(phrase(" does not match GoalTaskRecord task_id ", Text::Plain(goal_task_id), "")),
                        ),
                    ),
                ),
            ),
        ),
        StoreError::SessionRequired => Text::Fixed("new goal requires a nonblank session_id"),
        StoreError::SessionBlankInTables => Text::Fixed("goal tasks require a nonblank session_id"),
        StoreError::NotFresh => Text::Fixed("new session goals must start running without terminal metadata"),
        StoreError::ObjectiveRequired => Text::Fixed("new session goals require an objective"),
        StoreError::PendingOrIncomplete => Text::Fixed(
            "new session goals must not include pending or incomplete state",
        ),
        StoreError::IdExists => Text::Fixed("new session goal task id already exists"),
        StoreError::TaskIdTaken => Text::Fixed("UNIQUE constraint failed: tasks.id"),
        StoreError::ContextTaken => Text::Fixed("UNIQUE constraint failed: index 'idx_tasks_active_goal_context'"),
        StoreError::TokenLimitOutOfRange { value } => Text::Joined(
            "",
            Box::new(phrase("effective token limit ", Text::Number(value), " exceeds SQLite INTEGER domain")),
        ),
        StoreError::CostLimitInvalid => Text::Fixed("effective cost limit must be a non-negative finite value"),
        StoreError::ExtensionMissing { task_id } => Text::Joined(
            "",
            Box::new(phrase("goal task ", Text::Plain(task_id), " has no goal extension row")),
        ),
        StoreError::NotAGoal { task_id } => Text::Joined(
            "",
            Box::new(
                phrase("goal task ", Text::Plain(task_id), " has no canonical TaskKind::Goal row and goal extension"),
            ),
        ),
        StoreError::NotTerminal => Text::Fixed("guarded goal finish requires a terminal task status"),
        StoreError::BlankCallId => Text::Fixed("goal pending call id must be nonblank"),
        StoreError::PendingPairInvalid => Text::Fixed("goal pending call id and epoch must be paired and valid"),
        StoreError::PendingCallTaken => Text::Fixed("UNIQUE constraint failed: goal_tasks.pending_call_id"),
    }
}

pub fn phrase_of(before: &'static str, value: Text, after: &'static str) -> (r: Texts)
    ensures
        r == phrase(before, value, after),
{
    Texts::Item(Text::Fixed(before), Box::new(Texts::Item(value, Box::new(Texts::Item(Text::Fixed(after), Box::new(Texts::End))))))
}

impl StoreError {
    /// The words of the refusal.
    pub fn text(self) -> (r: Text)
        ensures
            r == error_text(self),
    {
        match self {
            StoreError::SessionBound => Text::Fixed("session-bound goals require guarded goal transition APIs"),
            StoreError::NotGoalKind { task_id } => Text::Joined(
                "",
                Box::new(phrase_of("goal task ", Text::Plain(task_id), " must use TaskKind::Goal")),
            ),
            StoreError::IdMismatch { task_id, goal_task_id } => Text::Joined(
                "",
                Box::new(
                    Texts::Item(
                        Text::Fixed("goal task id mismatch: TaskRecord id "),
                        Box::new(
                            Texts::Item(
                                Text::Plain(task_id),
                                Box::new(
                                    phrase_of(
                                        " does not match GoalTaskRecord task_id ",
                                        Text::Plain(goal_task_id),
                                        "",
                                    ),
                                ),
                            ),
                        ),
                    ),
                ),
            ),
            StoreError::SessionRequired => Text::Fixed("new goal requires a nonblank session_id"),
            StoreError::SessionBlankInTables => Text::Fixed("goal tasks require a nonblank session_id"),
            StoreError::NotFresh => Text::Fixed("new session goals must start running without terminal metadata"),
            StoreError::ObjectiveRequired => Text::Fixed("new session goals require an objective"),
            StoreError::PendingOrIncomplete => Text::Fixed(
                "new session goals must not include pending or incomplete state",
            ),
            StoreError::IdExists => Text::Fixed("new session goal task id already exists"),
            StoreError::TaskIdTaken => Text::Fixed("UNIQUE constraint failed: tasks.id"),
            StoreError::ContextTaken => Text::Fixed("UNIQUE constraint failed: index 'idx_tasks_active_goal_context'"),
            StoreError::TokenLimitOutOfRange { value } => Text::Joined(
                "",
                Box::new(phrase_of("effective token limit ", Text::Number(value), " exceeds SQLite INTEGER domain")),
            ),
            StoreError::CostLimitInvalid => Text::Fixed("effective cost limit must be a non-negative finite value"),
            StoreError::ExtensionMissing { task_id } => Text::Joined(
                "",
                Box::new(phrase_of("goal task ", Text::Plain(task_id), " has no goal extension row")),
            ),
            StoreError::NotAGoal { task_id } => Text::Joined(
                "",
                Box::new(
                    phrase_of(
                        "goal task ",
                        Text::Plain(task_id),
                        " has no canonical TaskKind::Goal row and goal extension",
                    ),
                ),
            ),
            StoreError::NotTerminal => Text::Fixed("guarded goal finish requires a terminal task status"),
            StoreError::BlankCallId => Text::Fixed("goal pending call id must be nonblank"),
            StoreError::PendingPairInvalid => Text::Fixed("goal pending call id and epoch must be paired and valid"),
            StoreError::PendingCallTaken => Text::Fixed("UNIQUE constraint failed: goal_tasks.pending_call_id"),
        }
    }
}

} // verus!
