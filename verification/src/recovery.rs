//! Who is responsible for delivering the goals that were running when the
//! daemon stopped or reloaded.
//!
//! The task tables stay the source of truth. The queue only says which goals
//! still need a continuation or a pause; whoever takes goals from it puts back
//! what they did not see through.
use vstd::prelude::*;
#[allow(unused_imports)]
use vstd::string::*;

use crate::error::{failure, in_context, GoalError};
use crate::goal_task::{GoalBlocker, GoalBlockerKind, GoalPauseReason, GoalPauseState, GoalPauseView};
use crate::message::{label, message1, msg, msg1, Text};
use crate::payload::{Fields, Json};
use crate::store::error::{phrase, phrase_of};
use crate::task::{TaskKind, TaskRecord, TaskStatus};
use crate::text::same_text;

verus! {

/// Why a recovered goal cannot continue.
#[derive(Clone, Copy, Debug, PartialEq, Eq, Structural)]
pub enum RecoveredGoalContinuationBlocker {
    AgentUnavailable,
    ProviderUnavailable,
    MissingContinuationContext,
    ContinuationContextReadFailed,
    InvalidContinuationContext,
    MissingGoalExtension,
    GoalExtensionReadFailed,
    ChannelUnavailable,
    ChannelOwnerUnavailable,
    QueueUnavailable,
}

impl RecoveredGoalContinuationBlocker {
    pub open spec fn code_word(self) -> &'static str {
        match self {
            RecoveredGoalContinuationBlocker::AgentUnavailable => "agent_unavailable",
            RecoveredGoalContinuationBlocker::ProviderUnavailable => "provider_unavailable",
            RecoveredGoalContinuationBlocker::MissingContinuationContext => "missing_continuation_context",
            RecoveredGoalContinuationBlocker::ContinuationContextReadFailed => "continuation_context_read_failed",
            RecoveredGoalContinuationBlocker::InvalidContinuationContext => "invalid_continuation_context",
            RecoveredGoalContinuationBlocker::MissingGoalExtension => "missing_goal_extension",
            RecoveredGoalContinuationBlocker::GoalExtensionReadFailed => "goal_extension_read_failed",
            RecoveredGoalContinuationBlocker::ChannelUnavailable => "channel_unavailable",
            RecoveredGoalContinuationBlocker::ChannelOwnerUnavailable => "channel_owner_unavailable",
            RecoveredGoalContinuationBlocker::QueueUnavailable => "queue_unavailable",
        }
    }

    pub open spec fn message_key(self) -> &'static str {
        match self {
            RecoveredGoalContinuationBlocker::AgentUnavailable => {
                "goal-command-restart-recovery-reason-agent-unavailable"
            },
            RecoveredGoalContinuationBlocker::ProviderUnavailable => {
                "goal-command-restart-recovery-reason-provider-unavailable"
            },
            RecoveredGoalContinuationBlocker::MissingContinuationContext => {
                "goal-command-restart-recovery-reason-missing-continuation"
            },
            RecoveredGoalContinuationBlocker::ContinuationContextReadFailed => {
                "goal-command-restart-recovery-reason-read-continuation-failed"
            },
            RecoveredGoalContinuationBlocker::InvalidContinuationContext => {
                "goal-command-restart-recovery-reason-read-continuation-failed"
            },
            RecoveredGoalContinuationBlocker::MissingGoalExtension => {
                "goal-command-restart-recovery-reason-missing-goal-extension"
            },
            RecoveredGoalContinuationBlocker::GoalExtensionReadFailed => {
                "goal-command-restart-recovery-reason-read-goal-extension-failed"
            },
            RecoveredGoalContinuationBlocker::ChannelUnavailable => {
                "goal-command-restart-recovery-reason-channel-unavailable"
            },
            RecoveredGoalContinuationBlocker::ChannelOwnerUnavailable => {
                "goal-command-restart-recovery-reason-channel-unavailable"
            },
            RecoveredGoalContinuationBlocker::QueueUnavailable => {
                "goal-command-restart-recovery-reason-queue-unavailable"
            },
        }
    }

    /// The stable code of the blocker.
    pub fn code(self) -> (r: &'static str)
        ensures
            r == self.code_word(),
    {
        match self {
            RecoveredGoalContinuationBlocker::AgentUnavailable => "agent_unavailable",
            RecoveredGoalContinuationBlocker::ProviderUnavailable => "provider_unavailable",
            RecoveredGoalContinuationBlocker::MissingContinuationContext => "missing_continuation_context",
            RecoveredGoalContinuationBlocker::ContinuationContextReadFailed => "continuation_context_read_failed",
            RecoveredGoalContinuationBlocker::InvalidContinuationContext => "invalid_continuation_context",
            RecoveredGoalContinuationBlocker::MissingGoalExtension => "missing_goal_extension",
            RecoveredGoalContinuationBlocker::GoalExtensionReadFailed => "goal_extension_read_failed",
            RecoveredGoalContinuationBlocker::ChannelUnavailable => "channel_unavailable",
            RecoveredGoalContinuationBlocker::ChannelOwnerUnavailable => "channel_owner_unavailable",
            RecoveredGoalContinuationBlocker::QueueUnavailable => "queue_unavailable",
        }
    }

    /// The catalogue entry that explains the blocker.
    pub fn reason_key(self) -> (r: &'static str)
        ensures
            r == self.message_key(),
    {
        match self {
            RecoveredGoalContinuationBlocker::AgentUnavailable => {
                "goal-command-restart-recovery-reason-agent-unavailable"
            },
            RecoveredGoalContinuationBlocker::ProviderUnavailable => {
                "goal-command-restart-recovery-reason-provider-unavailable"
            },
            RecoveredGoalContinuationBlocker::MissingContinuationContext => {
                "goal-command-restart-recovery-reason-missing-continuation"
            },
            RecoveredGoalContinuationBlocker::ContinuationContextReadFailed => {
                "goal-command-restart-recovery-reason-read-continuation-failed"
            },
            RecoveredGoalContinuationBlocker::InvalidContinuationContext => {
                "goal-command-restart-recovery-reason-read-continuation-failed"
            },
            RecoveredGoalContinuationBlocker::MissingGoalExtension => {
                "goal-command-restart-recovery-reason-missing-goal-extension"
            },
            RecoveredGoalContinuationBlocker::GoalExtensionReadFailed => {
                "goal-command-restart-recovery-reason-read-goal-extension-failed"
            },
            RecoveredGoalContinuationBlocker::ChannelUnavailable => {
                "goal-command-restart-recovery-reason-channel-unavailable"
            },
            RecoveredGoalContinuationBlocker::ChannelOwnerUnavailable => {
                "goal-command-restart-recovery-reason-channel-unavailable"
            },
            RecoveredGoalContinuationBlocker::QueueUnavailable => {
                "goal-command-restart-recovery-reason-queue-unavailable"
            },
        }
    }
}

/// The pause of a recovered goal that cannot continue; its payload holds the
/// stable code and nothing else.
pub open spec fn blocked_pause(blocker: RecoveredGoalContinuationBlocker) -> GoalPauseView {
    GoalPauseView {
        reason: GoalPauseReason::DaemonRestart,
        description: Some(label("goal-command-restart-recovery-paused-description")),
        blockers: seq![
            GoalBlocker {
                kind: GoalBlockerKind::RestartRecovery,
                message: message1(
                    "goal-command-restart-recovery-blocker",
                    "reason",
                    label(blocker.message_key()),
                ),
                payload: Some(
                    Json::Object(
                        Box::new(
                            Fields::Field("reason_code", Json::Word(blocker.code_word()), Box::new(Fields::End)),
                        ),
                    ),
                ),
            },
        ],
    }
}

pub fn recovered_goal_continuation_blocked_pause(blocker: RecoveredGoalContinuationBlocker) -> (r: GoalPauseState)
    ensures
        r@ == blocked_pause(blocker),
{
    let reason = msg(blocker.reason_key());
    let mut blockers: Vec<GoalBlocker> = Vec::new();
    blockers.push(
        GoalBlocker {
            kind: GoalBlockerKind::RestartRecovery,
            message: msg1("goal-command-restart-recovery-blocker", "reason", reason),
            payload: Some(
                Json::Object(
                    Box::new(Fields::Field("reason_code", Json::Word(blocker.code()), Box::new(Fields::End))),
                ),
            ),
        },
    );
    let r = GoalPauseState {
        reason: GoalPauseReason::DaemonRestart,
        description: Some(msg("goal-command-restart-recovery-paused-description")),
        blockers,
    };
    assert(r@ =~= blocked_pause(blocker));
    r
}

/// Goals that still need a continuation or a pause, in order.
#[derive(Debug, PartialEq, Eq)]
pub struct RecoveryQueue {
    pub ids: Vec<String>,
}

/// Goals that were taken from the queue together.
#[derive(Debug, PartialEq, Eq)]
pub struct RecoveredGoalBatch {
    pub task_ids: Vec<String>,
    pub committed: bool,
}

/// One goal of a batch, in someone's hands.
#[derive(Debug, PartialEq, Eq)]
pub struct RecoveredGoalLease {
    pub task_id: Option<String>,
}

pub open spec fn words(ids: Seq<String>) -> Seq<Seq<char>> {
    ids.map_values(|id: String| id@)
}

impl View for RecoveryQueue {
    type V = Seq<Seq<char>>;

    open spec fn view(&self) -> Seq<Seq<char>> {
        words(self.ids@)
    }
}

/// The queue with an id at its end, unless it holds that id.
pub open spec fn enqueued(queue: Seq<Seq<char>>, id: Seq<char>) -> Seq<Seq<char>> {
    if queue.contains(id) {
        queue
    } else {
        queue.push(id)
    }
}

/// The queue with ids put back, one after the other.
pub open spec fn restored(queue: Seq<Seq<char>>, ids: Seq<Seq<char>>) -> Seq<Seq<char>>
    decreases ids.len(),
{
    if ids.len() == 0 {
        queue
    } else {
        enqueued(restored(queue, ids.drop_last()), ids.last())
    }
}

/// Running goals of a daemon.
pub open spec fn reloadable(task: TaskRecord, boot_id: Seq<char>) -> bool {
    task.kind is Goal && task.owner_boot_id@ == boot_id
}

/// The ids of the running goals of a daemon.
pub open spec fn reload_ids(running: Seq<TaskRecord>, boot_id: Seq<char>) -> Seq<Seq<char>>
    decreases running.len(),
{
    if running.len() == 0 {
        Seq::empty()
    } else if reloadable(running.last(), boot_id) {
        reload_ids(running.drop_last(), boot_id).push(running.last().id@)
    } else {
        reload_ids(running.drop_last(), boot_id)
    }
}

impl RecoveryQueue {
    /// A queue of these ids.
    pub fn new(ids: Vec<String>) -> (r: RecoveryQueue)
        ensures
            r.ids == ids,
    {
        RecoveryQueue { ids }
    }

    pub fn holds(&self, task_id: &str) -> (r: bool)
        ensures
            r == self@.contains(task_id@),
    {
        let mut i: usize = 0;
        while i < self.ids.len()
            invariant
                i <= self.ids.len(),
                forall|j: int| 0 <= j < i ==> #[trigger] self@[j] != task_id@,
            decreases self.ids.len() - i,
        {
            if same_text(self.ids[i].as_str(), task_id) {
                assert(self@[i as int] == task_id@);
                return true;
            }
            assert(self@[i as int] == self.ids@[i as int]@);
            i = i + 1;
        }
        false
    }

    fn enqueue(&mut self, task_id: String) -> (added: bool)
        ensures
            final(self)@ == enqueued(old(self)@, task_id@),
            added == !old(self)@.contains(task_id@),
    {
        if self.holds(task_id.as_str()) {
            false
        } else {
            let ghost before = self@;
            self.ids.push(task_id);
            assert(self@ =~= before.push(task_id@));
            true
        }
    }

    /// Everything that the queue holds; the queue is empty afterwards.
    pub fn take_recovered_goal_ids(&mut self) -> (r: Vec<String>)
        ensures
            r@ == old(self).ids@,
            final(self)@ == Seq::<Seq<char>>::empty(),
    {
        let mut taken: Vec<String> = Vec::new();
        std::mem::swap(&mut self.ids, &mut taken);
        assert(self@ =~= Seq::<Seq<char>>::empty());
        taken
    }

    /// Puts ids back that are no longer in the queue, at its end.
    pub fn restore_recovered_goal_ids(&mut self, task_ids: &Vec<String>)
        ensures
            final(self)@ == restored(old(self)@, words(task_ids@)),
    {
        let ghost before = self@;
        let mut i: usize = 0;
        assert(words(task_ids@).take(0) =~= Seq::<Seq<char>>::empty());
        while i < task_ids.len()
            invariant
                i <= task_ids.len(),
                self@ == restored(before, words(task_ids@).take(i as int)),
            decreases task_ids.len() - i,
        {
            let ghost longer = words(task_ids@).take(i + 1);
            assert(longer.drop_last() =~= words(task_ids@).take(i as int));
            assert(longer.last() == task_ids@[i as int]@);
            self.enqueue(task_ids[i].clone());
            i = i + 1;
        }
        assert(words(task_ids@).take(i as int) =~= words(task_ids@));
    }

    /// Queues the running goals of this daemon that are not queued yet, and
    /// counts them.
    pub fn queue_running_goals_for_reload(&mut self, running: &Vec<TaskRecord>, boot_id: &str) -> (r: usize)
        ensures
            final(self)@ == restored(old(self)@, reload_ids(running@, boot_id@)),
            r == final(self)@.len() - old(self)@.len(),
    {
        let ghost before = self@;
        let mut added: usize = 0;
        let mut i: usize = 0;
        assert(running@.take(0) =~= Seq::<TaskRecord>::empty());
        while i < running.len()
            invariant
                i <= running.len(),
                added <= i,
                self@ == restored(before, reload_ids(running@.take(i as int), boot_id@)),
                added == self@.len() - before.len(),
            decreases running.len() - i,
        {
            let ghost longer = running@.take(i + 1);
            assert(longer.drop_last() =~= running@.take(i as int));
            assert(longer.last() == running@[i as int]);
            let task = &running[i];
            if task.kind == TaskKind::Goal && same_text(task.owner_boot_id.as_str(), boot_id) {
                let ghost ids = reload_ids(longer.drop_last(), boot_id@);
                assert(ids.push(task.id@).drop_last() =~= ids);
                assert(ids.push(task.id@).last() == task.id@);
                if self.enqueue(task.id.clone()) {
                    added = added + 1;
                }
            }
            i = i + 1;
        }
        assert(running@.take(i as int) =~= running@);
        added
    }
}

impl RecoveredGoalLease {
    pub fn new(task_id: String) -> (r: RecoveredGoalLease)
        ensures
            r == (RecoveredGoalLease { task_id: Some(task_id) }),
    {
        RecoveredGoalLease { task_id: Some(task_id) }
    }

    /// The goal that the lease is for.
    pub fn task_id(&self) -> (r: &str)
        requires
            self.task_id is Some,
        ensures
            r@ == self.task_id->Some_0@,
    {
        match &self.task_id {
            Some(task_id) => task_id.as_str(),
            None => "",
        }
    }

    /// The goal was seen through: nothing is put back any more.
    pub fn commit(&mut self)
        ensures
            final(self).task_id is None,
    {
        self.task_id = None;
    }

    /// Ends the lease. A goal that was not seen through goes back to the queue.
    pub fn release(&mut self, queue: &mut RecoveryQueue)
        ensures
            final(self).task_id is None,
            final(queue)@ == (match old(self).task_id {
                Some(task_id) => restored(old(queue)@, seq![task_id@]),
                None => old(queue)@,
            }),
    {
        match self.task_id.take() {
            Some(task_id) => {
                let ghost before = queue@;
                let mut ids: Vec<String> = Vec::new();
                ids.push(task_id);
                assert(words(ids@) =~= seq![task_id@]);
                queue.restore_recovered_goal_ids(&ids);
            },
            None => {},
        }
    }
}

impl RecoveredGoalBatch {
    /// Takes everything that is queued.
    pub fn take(queue: &mut RecoveryQueue) -> (r: RecoveredGoalBatch)
        ensures
            r.task_ids@ == old(queue).ids@,
            !r.committed,
            final(queue)@ == Seq::<Seq<char>>::empty(),
    {
        RecoveredGoalBatch { task_ids: queue.take_recovered_goal_ids(), committed: false }
    }

    pub fn task_ids(&self) -> (r: &Vec<String>)
        ensures
            *r == self.task_ids,
    {
        &self.task_ids
    }

    /// A lease on one goal of the batch.
    pub fn lease(&self, task_id: &str) -> (r: RecoveredGoalLease)
        requires
            words(self.task_ids@).contains(task_id@),
        ensures
            r.task_id matches Some(id) && id@ == task_id@,
    {
        RecoveredGoalLease::new(task_id.to_owned())
    }

    /// The batch was seen through, or handed on to leases.
    pub fn commit(&mut self)
        ensures
            final(self).committed,
            final(self).task_ids == old(self).task_ids,
    {
        self.committed = true;
    }

    /// Ends the batch. Goals that were not seen through go back to the queue.
    pub fn release(&mut self, queue: &mut RecoveryQueue)
        ensures
            final(self).committed,
            final(self).task_ids == old(self).task_ids,
            final(queue)@ == (if old(self).committed {
                old(queue)@
            } else {
                restored(old(queue)@, words(old(self).task_ids@))
            }),
    {
        if !self.committed {
            queue.restore_recovered_goal_ids(&self.task_ids);
            self.committed = true;
        }
    }
}

/// What pausing a batch asks of the registry. `P` stands for a pause.
#[derive(Debug, PartialEq, Eq)]
pub enum RecoveryRequest<P> {
    /// The task row.
    ReadTask(String),
    /// Pause the goal if it is running.
    PauseRunning { task_id: String, pause: P },
}

/// What the registry replies.
#[derive(Debug, PartialEq, Eq)]
pub enum RecoveryReply {
    Task(Option<TaskRecord>),
    Paused(bool),
    Failed(GoalError),
}

/// How far the pausing has come.
#[derive(Debug, PartialEq, Eq)]
pub enum RecoveryProgress<P> {
    Ask(RecoveryRequest<P>),
    Fail(GoalError),
    /// So many goals were paused.
    Done(usize),
}

/// What a `RecoveryProgress` says.
pub open spec fn progress_view(progress: RecoveryProgress<GoalPauseState>) -> RecoveryProgress<GoalPauseView> {
    match progress {
        RecoveryProgress::Ask(RecoveryRequest::ReadTask(task_id)) => RecoveryProgress::Ask(
            RecoveryRequest::ReadTask(task_id),
        ),
        RecoveryProgress::Ask(RecoveryRequest::PauseRunning { task_id, pause }) => RecoveryProgress::Ask(
            RecoveryRequest::PauseRunning { task_id, pause: pause@ },
        ),
        RecoveryProgress::Fail(error) => RecoveryProgress::Fail(error),
        RecoveryProgress::Done(paused) => RecoveryProgress::Done(paused),
    }
}

pub open spec fn read_failed(task_id: String, error: GoalError) -> GoalError {
    in_context(
        Text::Joined("", Box::new(phrase("read recovered goal ", Text::Plain(task_id), " before pausing"))),
        error,
    )
}

pub open spec fn pause_failed(task_id: String, error: GoalError) -> GoalError {
    in_context(
        Text::Joined("", Box::new(phrase("pause recovered goal ", Text::Plain(task_id), " without channel executor"))),
        error,
    )
}

pub open spec fn out_of_turn() -> GoalError {
    failure(Text::Fixed("task registry sent an unexpected reply"))
}

/// Pausing the goals from position `at` on, given the replies from `from` on
/// and the number of goals paused before. A running goal is paused because no
/// channel can continue it. A task that is gone, is no goal or does not run is
/// passed over; the first failure ends it.
pub open spec fn pausing(
    ids: Seq<String>,
    replies: Seq<RecoveryReply>,
    at: int,
    from: int,
    paused: usize,
) -> RecoveryProgress<GoalPauseView>
    decreases ids.len() - at,
{
    if at < 0 || at >= ids.len() {
        RecoveryProgress::Done(paused)
    } else if from >= replies.len() {
        RecoveryProgress::Ask(RecoveryRequest::ReadTask(ids[at]))
    } else {
        match replies[from] {
            RecoveryReply::Failed(error) => RecoveryProgress::Fail(read_failed(ids[at], error)),
            RecoveryReply::Paused(_) => RecoveryProgress::Fail(out_of_turn()),
            RecoveryReply::Task(task) => if task matches Some(task) && task.kind is Goal && task.status is Running {
                if from + 1 >= replies.len() {
                    RecoveryProgress::Ask(
                        RecoveryRequest::PauseRunning {
                            task_id: ids[at],
                            pause: blocked_pause(RecoveredGoalContinuationBlocker::ChannelUnavailable),
                        },
                    )
                } else {
                    match replies[from + 1] {
                        RecoveryReply::Failed(error) => RecoveryProgress::Fail(pause_failed(ids[at], error)),
                        RecoveryReply::Task(_) => RecoveryProgress::Fail(out_of_turn()),
                        RecoveryReply::Paused(did) => pausing(
                            ids,
                            replies,
                            at + 1,
                            from + 2,
                            (paused + if did {
                                1int
                            } else {
                                0int
                            }) as usize,
                        ),
                    }
                }
            } else {
                pausing(ids, replies, at + 1, from + 1, paused)
            },
        }
    }
}

/// Pauses every running goal of a batch because no channel can continue it:
/// the next step, given the replies so far.
pub fn pause_recovered_goals_without_channel_executor(ids: &Vec<String>, replies: &Vec<RecoveryReply>) -> (r:
    RecoveryProgress<GoalPauseState>)
    ensures
        progress_view(r) == pausing(ids@, replies@, 0, 0, 0),
{
    let mut at: usize = 0;
    let mut from: usize = 0;
    let mut paused: usize = 0;
    while at < ids.len()
        invariant
            at <= ids.len(),
            from <= replies.len(),
            paused <= at,
            pausing(ids@, replies@, 0, 0, 0) == pausing(ids@, replies@, at as int, from as int, paused),
        decreases ids.len() - at,
    {
        if from >= replies.len() {
            return RecoveryProgress::Ask(RecoveryRequest::ReadTask(ids[at].clone()));
        }
        let running = match &replies[from] {
            RecoveryReply::Failed(error) => {
                let text = Text::Joined(
                    "",
                    Box::new(phrase_of("read recovered goal ", Text::Plain(ids[at].clone()), " before pausing")),
                );
                return RecoveryProgress::Fail(error.copy().context(text));
            },
            RecoveryReply::Paused(_) => {
                return RecoveryProgress::Fail(
                    GoalError::new(Text::Fixed("task registry sent an unexpected reply")),
                );
            },
            RecoveryReply::Task(Some(task)) => task.kind == TaskKind::Goal && task.status == TaskStatus::Running,
            RecoveryReply::Task(None) => false,
        };
        from = from + 1;
        if running {
            if from >= replies.len() {
                let pause = recovered_goal_continuation_blocked_pause(
                    RecoveredGoalContinuationBlocker::ChannelUnavailable,
                );
                return RecoveryProgress::Ask(RecoveryRequest::PauseRunning { task_id: ids[at].clone(), pause });
            }
            match &replies[from] {
                RecoveryReply::Failed(error) => {
                    let text = Text::Joined(
                        "",
                        Box::new(
                            phrase_of("pause recovered goal ", Text::Plain(ids[at].clone()), " without channel executor"),
                        ),
                    );
                    return RecoveryProgress::Fail(error.copy().context(text));
                },
                RecoveryReply::Task(_) => {
                    return RecoveryProgress::Fail(
                        GoalError::new(Text::Fixed("task registry sent an unexpected reply")),
                    );
                },
                RecoveryReply::Paused(did) => {
                    if *did {
                        paused = paused + 1;
                    }
                },
            }
            from = from + 1;
        }
        at = at + 1;
    }
    RecoveryProgress::Done(paused)
}

/// The queue never holds an id twice.
pub proof fn law_queue_has_no_duplicates(queue: Seq<Seq<char>>, ids: Seq<Seq<char>>)
    requires
        queue.no_duplicates(),
    ensures
        restored(queue, ids).no_duplicates(),
    decreases ids.len(),
{
    if ids.len() > 0 {
        law_queue_has_no_duplicates(queue, ids.drop_last());
    }
}

/// Nothing that is put back is lost, and nothing that was queued moves.
pub proof fn law_restore_loses_nothing(queue: Seq<Seq<char>>, ids: Seq<Seq<char>>)
    ensures
        queue.is_prefix_of(restored(queue, ids)),
        forall|i: int| 0 <= i < ids.len() ==> restored(queue, ids).contains(#[trigger] ids[i]),
        forall|i: int|
            0 <= i < restored(queue, ids).len() ==> queue.contains(#[trigger] restored(queue, ids)[i]) || ids.contains(
                restored(queue, ids)[i],
            ),
    decreases ids.len(),
{
    if ids.len() == 0 {
        assert(queue =~= queue.subrange(0, queue.len() as int));
        assert forall|i: int| 0 <= i < queue.len() implies queue.contains(#[trigger] queue[i]) by {}
    } else {
        let front = ids.drop_last();
        law_restore_loses_nothing(queue, front);
        let shorter = restored(queue, front);
        let longer = restored(queue, ids);
        assert(longer == enqueued(shorter, ids.last()));
        assert(longer.contains(ids.last())) by {
            if !shorter.contains(ids.last()) {
                assert(longer[shorter.len() as int] == ids.last());
            }
        }
        assert forall|i: int| 0 <= i < ids.len() implies longer.contains(#[trigger] ids[i]) by {
            if i < front.len() {
                assert(front[i] == ids[i]);
                assert(shorter.contains(front[i]));
                let k = choose|k: int| 0 <= k < shorter.len() && shorter[k] == front[i];
                assert(longer[k] == front[i]);
            }
        }
        assert forall|i: int| 0 <= i < longer.len() implies queue.contains(#[trigger] longer[i]) || ids.contains(longer[i]) by {
            if i < shorter.len() {
                assert(longer[i] == shorter[i]);
                if front.contains(shorter[i]) {
                    let k = choose|k: int| 0 <= k < front.len() && front[k] == shorter[i];
                    assert(ids[k] == shorter[i]);
                }
            } else {
                assert(longer[i] == ids.last());
                assert(ids[ids.len() - 1] == ids.last());
            }
        }
        assert(queue.is_prefix_of(longer)) by {
            assert(shorter.subrange(0, queue.len() as int) =~= longer.subrange(0, queue.len() as int));
        }
    }
}

/// A batch that is taken and put back leaves the queue as it was.
pub proof fn law_take_and_release_restores(ids: Seq<Seq<char>>)
    requires
        ids.no_duplicates(),
    ensures
        restored(Seq::empty(), ids) == ids,
    decreases ids.len(),
{
    if ids.len() == 0 {
        assert(ids =~= Seq::<Seq<char>>::empty());
    } else {
        let front = ids.drop_last();
        law_take_and_release_restores(front);
        assert(!front.contains(ids.last()));
        assert(front.push(ids.last()) =~= ids);
    }
}

/// The goals that a reload queues are the running goals of this daemon, by
/// their ids, in their order.
pub proof fn law_which_goals_are_reloaded(front: Seq<TaskRecord>, last: TaskRecord, boot_id: Seq<char>)
    ensures
        reload_ids(Seq::<TaskRecord>::empty(), boot_id) == Seq::<Seq<char>>::empty(),
        reload_ids(front.push(last), boot_id) == (if last.kind == TaskKind::Goal && last.owner_boot_id@ == boot_id {
            reload_ids(front, boot_id).push(last.id@)
        } else {
            reload_ids(front, boot_id)
        }),
{
    assert(front.push(last).drop_last() =~= front);
}

/// The goals of a batch are taken one by one: a goal that runs is paused
/// because no channel can continue it, and anything else is passed over. A goal
/// counts if it was paused by this, and the first failure ends the batch and
/// names its goal.
#[verifier::spinoff_prover]
pub proof fn law_batch_is_paused_one_by_one(
    ids: Seq<String>,
    replies: Seq<RecoveryReply>,
    at: int,
    from: int,
    paused: usize,
)
    requires
        0 <= at <= ids.len(),
        0 <= from <= replies.len(),
        paused < usize::MAX,
    ensures
        ({
            let step = pausing(ids, replies, at, from, paused);
            if at == ids.len() {
                step == RecoveryProgress::<GoalPauseView>::Done(paused)
            } else if from == replies.len() {
                step == RecoveryProgress::<GoalPauseView>::Ask(RecoveryRequest::ReadTask(ids[at]))
            } else {
                match replies[from] {
                    RecoveryReply::Task(Some(task)) => if task.kind == TaskKind::Goal && task.status
                        == TaskStatus::Running {
                        if from + 1 == replies.len() {
                            step matches RecoveryProgress::Ask(RecoveryRequest::PauseRunning { task_id, pause })
                                && task_id == ids[at] && pause == blocked_pause(
                                RecoveredGoalContinuationBlocker::ChannelUnavailable,
                            )
                        } else {
                            match replies[from + 1] {
                                RecoveryReply::Paused(true) => step == pausing(
                                    ids,
                                    replies,
                                    at + 1,
                                    from + 2,
                                    (paused + 1) as usize,
                                ),
                                RecoveryReply::Paused(false) => step == pausing(ids, replies, at + 1, from + 2, paused),
                                RecoveryReply::Failed(error) => step matches RecoveryProgress::Fail(told) && told.cause
                                    == Some(Box::new(error)) && told.text == Text::Joined(
                                    "",
                                    Box::new(
                                        phrase(
                                            "pause recovered goal ",
                                            Text::Plain(ids[at]),
                                            " without channel executor",
                                        ),
                                    ),
                                ),
                                _ => step is Fail,
                            }
                        }
                    } else {
                        step == pausing(ids, replies, at + 1, from + 1, paused)
                    },
                    RecoveryReply::Task(None) => step == pausing(ids, replies, at + 1, from + 1, paused),
                    RecoveryReply::Failed(error) => step matches RecoveryProgress::Fail(told) && told.cause == Some(
                        Box::new(error),
                    ) && told.text == Text::Joined(
                        "",
                        Box::new(phrase("read recovered goal ", Text::Plain(ids[at]), " before pausing")),
                    ),
                    _ => step is Fail,
                }
            }
        }),
{
}

/// The pause of a goal that cannot be continued: a restart, one blocker of that
/// kind with the stable code of what is missing as its payload, and its words.
pub proof fn law_blocked_goal_says_why(blocker: RecoveredGoalContinuationBlocker)
    ensures
        ({
            let pause = blocked_pause(blocker);
            &&& pause.reason == GoalPauseReason::DaemonRestart
            &&& pause.description == Some(
                Text::Message(
                    "goal-command-restart-recovery-paused-description",
                    Box::new(crate::message::Args::End),
                ),
            )
            &&& pause.blockers.len() == 1
            &&& pause.blockers[0].kind == GoalBlockerKind::RestartRecovery
            &&& pause.blockers[0].payload == Some(
                Json::Object(
                    Box::new(Fields::Field("reason_code", Json::Word(blocker.code_word()), Box::new(Fields::End))),
                ),
            )
            &&& pause.blockers[0].message == Text::Message(
                "goal-command-restart-recovery-blocker",
                Box::new(
                    crate::message::Args::Arg(
                        "reason",
                        Text::Message(blocker.message_key(), Box::new(crate::message::Args::End)),
                        Box::new(crate::message::Args::End),
                    ),
                ),
            )
        }),
        blocker.code_word() == match blocker {
            RecoveredGoalContinuationBlocker::AgentUnavailable => "agent_unavailable",
            RecoveredGoalContinuationBlocker::ProviderUnavailable => "provider_unavailable",
            RecoveredGoalContinuationBlocker::MissingContinuationContext => "missing_continuation_context",
            RecoveredGoalContinuationBlocker::ContinuationContextReadFailed => "continuation_context_read_failed",
            RecoveredGoalContinuationBlocker::InvalidContinuationContext => "invalid_continuation_context",
            RecoveredGoalContinuationBlocker::MissingGoalExtension => "missing_goal_extension",
            RecoveredGoalContinuationBlocker::GoalExtensionReadFailed => "goal_extension_read_failed",
            RecoveredGoalContinuationBlocker::ChannelUnavailable => "channel_unavailable",
            RecoveredGoalContinuationBlocker::ChannelOwnerUnavailable => "channel_owner_unavailable",
            RecoveredGoalContinuationBlocker::QueueUnavailable => "queue_unavailable",
        },
        blocker.message_key() == match blocker {
            RecoveredGoalContinuationBlocker::AgentUnavailable => {
                "goal-command-restart-recovery-reason-agent-unavailable"
            },
            RecoveredGoalContinuationBlocker::ProviderUnavailable => {
                "goal-command-restart-recovery-reason-provider-unavailable"
            },
            RecoveredGoalContinuationBlocker::MissingContinuationContext => {
                "goal-command-restart-recovery-reason-missing-continuation"
            },
            RecoveredGoalContinuationBlocker::ContinuationContextReadFailed => {
                "goal-command-restart-recovery-reason-read-continuation-failed"
            },
            RecoveredGoalContinuationBlocker::InvalidContinuationContext => {
                "goal-command-restart-recovery-reason-read-continuation-failed"
            },
            RecoveredGoalContinuationBlocker::MissingGoalExtension => {
                "goal-command-restart-recovery-reason-missing-goal-extension"
            },
            RecoveredGoalContinuationBlocker::GoalExtensionReadFailed => {
                "goal-command-restart-recovery-reason-read-goal-extension-failed"
            },
            RecoveredGoalContinuationBlocker::ChannelUnavailable => {
                "goal-command-restart-recovery-reason-channel-unavailable"
            },
            RecoveredGoalContinuationBlocker::ChannelOwnerUnavailable => {
                "goal-command-restart-recovery-reason-channel-unavailable"
            },
            RecoveredGoalContinuationBlocker::QueueUnavailable => {
                "goal-command-restart-recovery-reason-queue-unavailable"
            },
        },
{
}

/// A batch takes the whole queue and hands out what it took. Given up before it
/// is committed, it puts everything back behind what was queued meanwhile;
/// committed, it puts nothing back.
pub proof fn law_batch_is_put_back_or_committed(
    queue: &mut RecoveryQueue,
    batch: RecoveredGoalBatch,
    given_up: &mut RecoveredGoalBatch,
    later: &mut RecoveryQueue,
    committed: &mut RecoveredGoalBatch,
    dropped: &mut RecoveredGoalBatch,
    after: &mut RecoveryQueue,
)
    requires
        call_ensures(RecoveredGoalBatch::take, (queue,), batch),
        *old(given_up) == batch,
        call_ensures(RecoveredGoalBatch::release, (given_up, later), ()),
        *old(committed) == batch,
        call_ensures(RecoveredGoalBatch::commit, (committed,), ()),
        *old(dropped) == *final(committed),
        call_ensures(RecoveredGoalBatch::release, (dropped, after), ()),
    ensures
        batch.task_ids@ == old(queue).ids@,
        final(queue)@.len() == 0,
        old(later)@.is_prefix_of(final(later)@),
        forall|i: int| 0 <= i < old(queue)@.len() ==> final(later)@.contains(#[trigger] old(queue)@[i]),
        old(later)@.len() == 0 && old(queue)@.no_duplicates() ==> final(later)@ == old(queue)@,
        final(after)@ == old(after)@,
{
    law_restore_loses_nothing(old(later)@, old(queue)@);
    if old(later)@.len() == 0 && old(queue)@.no_duplicates() {
        assert(old(later)@ =~= Seq::<Seq<char>>::empty());
        law_take_and_release_restores(old(queue)@);
    }
}

/// A lease puts its own goal back when it is given up, once; committed, it puts
/// nothing back. Nothing that was queued moves, and nothing else is queued.
pub proof fn law_lease_is_put_back_or_committed(
    batch: &RecoveredGoalBatch,
    task_id: &str,
    lease: RecoveredGoalLease,
    given_up: &mut RecoveredGoalLease,
    queue: &mut RecoveryQueue,
    committed: &mut RecoveredGoalLease,
    dropped: &mut RecoveredGoalLease,
    after: &mut RecoveryQueue,
)
    requires
        words(batch.task_ids@).contains(task_id@),
        call_ensures(RecoveredGoalBatch::lease, (batch, task_id), lease),
        *old(given_up) == lease,
        call_ensures(RecoveredGoalLease::release, (given_up, queue), ()),
        *old(committed) == lease,
        call_ensures(RecoveredGoalLease::commit, (committed,), ()),
        *old(dropped) == *final(committed),
        call_ensures(RecoveredGoalLease::release, (dropped, after), ()),
    ensures
        final(queue)@ == (if old(queue)@.contains(task_id@) {
            old(queue)@
        } else {
            old(queue)@.push(task_id@)
        }),
        final(given_up).task_id is None,
        final(after)@ == old(after)@,
{
    let one = seq![task_id@];
    assert(one.drop_last() =~= Seq::<Seq<char>>::empty());
    assert(restored(old(queue)@, one) == enqueued(restored(old(queue)@, one.drop_last()), one.last()));
}

/// A reload queues the running goals of this daemon behind what is queued, each
/// once, and says how many came.
pub proof fn law_running_goals_are_queued(
    queue: &mut RecoveryQueue,
    running: &Vec<TaskRecord>,
    boot_id: &str,
    r: usize,
    i: int,
)
    requires
        call_ensures(RecoveryQueue::queue_running_goals_for_reload, (queue, running, boot_id), r),
        0 <= i < running@.len(),
    ensures
        old(queue)@.is_prefix_of(final(queue)@),
        old(queue)@.len() + r == final(queue)@.len(),
        running@[i].kind is Goal && running@[i].owner_boot_id@ == boot_id@ ==> final(queue)@.contains(running@[i].id@),
        old(queue)@.no_duplicates() ==> final(queue)@.no_duplicates(),
{
    let ids = reload_ids(running@, boot_id@);
    law_restore_loses_nothing(old(queue)@, ids);
    lemma_reloaded(running@, boot_id@, i);
    if old(queue)@.no_duplicates() {
        law_queue_has_no_duplicates(old(queue)@, ids);
    }
}

proof fn lemma_reloaded(running: Seq<TaskRecord>, boot_id: Seq<char>, i: int)
    requires
        0 <= i < running.len(),
    ensures
        reloadable(running[i], boot_id) ==> reload_ids(running, boot_id).contains(running[i].id@),
    decreases running.len(),
{
    if reloadable(running[i], boot_id) {
        let before = reload_ids(running.drop_last(), boot_id);
        let ids = reload_ids(running, boot_id);
        if i == running.len() - 1 {
            assert(ids[before.len() as int] == running[i].id@);
        } else {
            lemma_reloaded(running.drop_last(), boot_id, i);
            let k = choose|k: int| 0 <= k < before.len() && before[k] == running[i].id@;
            assert(ids[k] == running[i].id@);
        }
    }
}

} // verus!
