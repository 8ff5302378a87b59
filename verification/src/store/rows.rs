//! Extension rows as they are stored.
use vstd::prelude::*;
#[allow(unused_imports)]
use vstd::string::*;

use super::error::StoreError;
use super::limits::{
    cost_limit_fault, cost_limit_from_db, goal_limits_to_db, limits_error, token_limit_from_db, LimitFault,
};
use crate::goal_task::{
    accounting_state_from_db, accounting_state_of_word, accounting_state_to_db, law_accounting_state_round_trip,
    law_pause_reason_round_trip, pause_reason_from_db, pause_reason_of_word, pause_reason_to_db, GoalBlocker,
    GoalTaskRecord, GoalTaskView,
};
use crate::message::Text;
use crate::usd::Usd;

verus! {

/// The columns of an extension row.
#[derive(Debug, PartialEq, Eq)]
pub struct StoredGoal {
    pub task_id: String,
    pub objective: String,
    pub effective_token_limit: Option<i64>,
    pub effective_cost_limit_usd: Option<Usd>,
    pub pause_reason: Option<String>,
    pub pause_description: Option<Text>,
    /// The blockers, or why their column cannot be read.
    pub blockers: Result<Vec<GoalBlocker>, String>,
    pub pending_call_id: Option<String>,
    pub pending_call_epoch: Option<i64>,
    pub accounting_state: String,
}

/// Why a row cannot be read.
#[derive(Debug, PartialEq, Eq)]
pub enum RowError {
    UnknownPauseReason(String),
    Limit(LimitFault),
    Blockers(String),
    UnknownAccountingState(String),
}

/// Why a row cannot be read, the first column that is at fault.
pub open spec fn row_error(row: StoredGoal) -> Option<RowError> {
    if row.pause_reason is Some && pause_reason_of_word(row.pause_reason->Some_0@) is None {
        Some(RowError::UnknownPauseReason(row.pause_reason->Some_0))
    } else if row.effective_token_limit is Some && row.effective_token_limit->Some_0 < 0 {
        Some(RowError::Limit(LimitFault::NegativeTokens { tokens: row.effective_token_limit->Some_0 }))
    } else if cost_limit_fault(row.effective_cost_limit_usd) is Some {
        Some(RowError::Limit(cost_limit_fault(row.effective_cost_limit_usd)->Some_0))
    } else if row.blockers is Err {
        Some(RowError::Blockers(row.blockers->Err_0))
    } else if accounting_state_of_word(row.accounting_state@) is None {
        Some(RowError::UnknownAccountingState(row.accounting_state))
    } else {
        None
    }
}

/// What a readable row holds. The store has no column for tool batches.
pub open spec fn row_record(row: StoredGoal) -> GoalTaskView {
    GoalTaskView {
        task_id: row.task_id,
        objective: row.objective,
        effective_token_limit: match row.effective_token_limit {
            Some(limit) => Some(limit as u64),
            None => None,
        },
        effective_cost_limit_usd: row.effective_cost_limit_usd,
        pause_reason: match row.pause_reason {
            Some(word) => pause_reason_of_word(word@),
            None => None,
        },
        pause_description: row.pause_description,
        blockers: row.blockers->Ok_0@,
        pending_call_id: row.pending_call_id,
        pending_call_epoch: row.pending_call_epoch,
        pending_tool_batch_id: None,
        pending_tool_epoch: None,
        accounting_state: accounting_state_of_word(row.accounting_state@)->Some_0,
    }
}

/// Reads an extension row.
pub fn row_to_goal_task(row: StoredGoal) -> (r: Result<GoalTaskRecord, RowError>)
    ensures
        match r {
            Ok(record) => row_error(row) is None && record@ == row_record(row),
            Err(error) => row_error(row) == Some(error),
        },
{
    let pause_reason = match pause_reason_from_db(row.pause_reason) {
        Ok(reason) => reason,
        Err(word) => {
            return Err(RowError::UnknownPauseReason(word));
        },
    };
    let effective_token_limit = match token_limit_from_db(row.effective_token_limit) {
        Ok(limit) => limit,
        Err(error) => {
            return Err(RowError::Limit(error));
        },
    };
    let effective_cost_limit_usd = match cost_limit_from_db(row.effective_cost_limit_usd) {
        Ok(limit) => limit,
        Err(error) => {
            return Err(RowError::Limit(error));
        },
    };
    let blockers = match row.blockers {
        Ok(blockers) => blockers,
        Err(error) => {
            return Err(RowError::Blockers(error));
        },
    };
    let accounting_state = match accounting_state_from_db(row.accounting_state.as_str()) {
        Some(state) => state,
        None => {
            return Err(RowError::UnknownAccountingState(row.accounting_state));
        },
    };
    Ok(
        GoalTaskRecord {
            task_id: row.task_id,
            objective: row.objective,
            effective_token_limit,
            effective_cost_limit_usd,
            pause_reason,
            pause_description: row.pause_description,
            blockers,
            pending_call_id: row.pending_call_id,
            pending_call_epoch: row.pending_call_epoch,
            pending_tool_batch_id: None,
            pending_tool_epoch: None,
            accounting_state,
        },
    )
}

/// The row holds a record.
pub open spec fn stores(row: StoredGoal, record: GoalTaskView) -> bool {
    &&& row.task_id == record.task_id
    &&& row.objective == record.objective
    &&& row.effective_token_limit is Some == record.effective_token_limit is Some
    &&& record.effective_token_limit matches Some(limit) ==> limit <= i64::MAX && row.effective_token_limit == Some(
        limit as i64,
    )
    &&& row.effective_cost_limit_usd == record.effective_cost_limit_usd
    &&& row.pause_reason is Some == record.pause_reason is Some
    &&& record.pause_reason matches Some(reason) ==> row.pause_reason->Some_0@ == reason.word()@
    &&& row.pause_description == record.pause_description
    &&& row.blockers matches Ok(blockers) && blockers@ == record.blockers
    &&& row.pending_call_id == record.pending_call_id
    &&& row.pending_call_epoch == record.pending_call_epoch
    &&& row.accounting_state@ == record.accounting_state.word()@
}

/// The row for a record, unless the store cannot hold its limits.
pub fn goal_task_to_row(record: GoalTaskRecord) -> (r: Result<StoredGoal, StoreError>)
    ensures
        match r {
            Ok(row) => limits_error(record.effective_token_limit, record.effective_cost_limit_usd) is None && stores(
                row,
                record@,
            ),
            Err(error) => limits_error(record.effective_token_limit, record.effective_cost_limit_usd) == Some(error),
        },
{
    let (tokens, cost) = match goal_limits_to_db(record.effective_token_limit, record.effective_cost_limit_usd) {
        Ok(limits) => limits,
        Err(error) => {
            return Err(error);
        },
    };
    let pause_reason = match record.pause_reason {
        Some(reason) => Some(pause_reason_to_db(reason).to_owned()),
        None => None,
    };
    Ok(
        StoredGoal {
            task_id: record.task_id,
            objective: record.objective,
            effective_token_limit: tokens,
            effective_cost_limit_usd: cost,
            pause_reason,
            pause_description: record.pause_description,
            blockers: Ok(record.blockers),
            pending_call_id: record.pending_call_id,
            pending_call_epoch: record.pending_call_epoch,
            accounting_state: accounting_state_to_db(record.accounting_state).to_owned(),
        },
    )
}

/// What is read from a row is what was stored in it; a tool batch is not
/// stored.
pub proof fn law_stored_goal_reads_back(row: StoredGoal, record: GoalTaskView)
    requires
        stores(row, record),
        limits_error(record.effective_token_limit, record.effective_cost_limit_usd) is None,
    ensures
        row_error(row) is None,
        row_record(row) == (GoalTaskView { pending_tool_batch_id: None, pending_tool_epoch: None, ..record }),
{
    law_accounting_state_round_trip(record.accounting_state);
    if record.pause_reason is Some {
        law_pause_reason_round_trip(record.pause_reason->Some_0);
    }
}

} // verus!
