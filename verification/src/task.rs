//! Canonical task rows: identity, lifecycle and ownership.
use vstd::prelude::*;
#[allow(unused_imports)]
use vstd::string::*;

use crate::text::{clone_opt, same_text};

verus! {

/// Lifecycle of a task.
#[derive(Clone, Copy, Debug, PartialEq, Eq, Structural)]
pub enum TaskStatus {
    Running,
    Paused,
    Completed,
    Failed,
    Cancelled,
    Lost,
    TimedOut,
}

/// What a task is for.
#[derive(Clone, Copy, Debug, PartialEq, Eq, Structural)]
pub enum TaskKind {
    Delegate,
    Goal,
}

/// Canonical task row.
#[derive(Debug, PartialEq, Eq)]
pub struct TaskRecord {
    pub id: String,
    pub kind: TaskKind,
    pub agent: String,
    pub status: TaskStatus,
    pub owner_pid: u32,
    pub owner_boot_id: String,
    pub heartbeat_at: Option<String>,
    pub depth: u32,
    pub parent_id: Option<String>,
    pub originator_route: Option<String>,
    pub delivered: bool,
    pub idem_key: Option<String>,
    pub principal_id: Option<String>,
    pub session_id: Option<String>,
    pub execution_epoch: i64,
    pub started_at: String,
    pub finished_at: Option<String>,
}

impl TaskStatus {
    /// A state that a task never leaves.
    pub open spec fn terminal(self) -> bool {
        !(self is Running) && !(self is Paused)
    }

    /// Running or paused.
    pub open spec fn active(self) -> bool {
        self is Running || self is Paused
    }

    pub fn is_terminal(self) -> (r: bool)
        ensures
            r == self.terminal(),
    {
        match self {
            TaskStatus::Running => false,
            TaskStatus::Paused => false,
            _ => true,
        }
    }

    pub fn is_active(self) -> (r: bool)
        ensures
            r == self.active(),
    {
        !self.is_terminal()
    }

    /// The word that stands for the status in the store.
    pub open spec fn word(self) -> &'static str {
        match self {
            TaskStatus::Running => "running",
            TaskStatus::Paused => "paused",
            TaskStatus::Completed => "completed",
            TaskStatus::Failed => "failed",
            TaskStatus::Cancelled => "cancelled",
            TaskStatus::Lost => "lost",
            TaskStatus::TimedOut => "timed_out",
        }
    }
}

/// The status that a stored word stands for.
pub open spec fn status_of_word(word: Seq<char>) -> Option<TaskStatus> {
    if word == "running"@ {
        Some(TaskStatus::Running)
    } else if word == "paused"@ {
        Some(TaskStatus::Paused)
    } else if word == "completed"@ {
        Some(TaskStatus::Completed)
    } else if word == "failed"@ {
        Some(TaskStatus::Failed)
    } else if word == "cancelled"@ {
        Some(TaskStatus::Cancelled)
    } else if word == "lost"@ {
        Some(TaskStatus::Lost)
    } else if word == "timed_out"@ {
        Some(TaskStatus::TimedOut)
    } else {
        None
    }
}

/// The stored word of a status.
pub fn status_to_db(status: TaskStatus) -> (r: &'static str)
    ensures
        r == status.word(),
{
    match status {
        TaskStatus::Running => "running",
        TaskStatus::Paused => "paused",
        TaskStatus::Completed => "completed",
        TaskStatus::Failed => "failed",
        TaskStatus::Cancelled => "cancelled",
        TaskStatus::Lost => "lost",
        TaskStatus::TimedOut => "timed_out",
    }
}

/// The status of a stored word; none for a word that is not one.
pub fn status_from_db(word: &str) -> (r: Option<TaskStatus>)
    ensures
        r == status_of_word(word@),
{
    if same_text(word, "running") {
        Some(TaskStatus::Running)
    } else if same_text(word, "paused") {
        Some(TaskStatus::Paused)
    } else if same_text(word, "completed") {
        Some(TaskStatus::Completed)
    } else if same_text(word, "failed") {
        Some(TaskStatus::Failed)
    } else if same_text(word, "cancelled") {
        Some(TaskStatus::Cancelled)
    } else if same_text(word, "lost") {
        Some(TaskStatus::Lost)
    } else if same_text(word, "timed_out") {
        Some(TaskStatus::TimedOut)
    } else {
        None
    }
}

/// A status read back from its stored word is the status that was stored.
pub proof fn law_status_word_round_trip(status: TaskStatus)
    ensures
        status_of_word(status.word()@) == Some(status),
{
    reveal_strlit("running");
    reveal_strlit("paused");
    reveal_strlit("completed");
    reveal_strlit("failed");
    reveal_strlit("cancelled");
    reveal_strlit("lost");
    reveal_strlit("timed_out");
    assert("running"@.len() == 7 && "lost"@.len() == 4);
    assert("paused"@.len() == 6 && "failed"@.len() == 6);
    assert("completed"@.len() == 9 && "cancelled"@.len() == 9 && "timed_out"@.len() == 9);
    assert("paused"@[0] != "failed"@[0]);
    assert("completed"@[1] != "cancelled"@[1]);
    assert("completed"@[0] != "timed_out"@[0]);
    assert("cancelled"@[0] != "timed_out"@[0]);
}

impl TaskRecord {
    /// The same row again.
    pub fn copy(&self) -> (r: TaskRecord)
        ensures
            r == *self,
    {
        TaskRecord {
            id: self.id.clone(),
            kind: self.kind,
            agent: self.agent.clone(),
            status: self.status,
            owner_pid: self.owner_pid,
            owner_boot_id: self.owner_boot_id.clone(),
            heartbeat_at: clone_opt(&self.heartbeat_at),
            depth: self.depth,
            parent_id: clone_opt(&self.parent_id),
            originator_route: clone_opt(&self.originator_route),
            delivered: self.delivered,
            idem_key: clone_opt(&self.idem_key),
            principal_id: clone_opt(&self.principal_id),
            session_id: clone_opt(&self.session_id),
            execution_epoch: self.execution_epoch,
            started_at: self.started_at.clone(),
            finished_at: clone_opt(&self.finished_at),
        }
    }
}

} // verus!
