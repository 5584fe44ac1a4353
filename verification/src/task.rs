//! The task record and the rules of its lifecycle.
//!
//! A task is created, accepted, delivered and completed; or created and
//! cancelled; or accepted and, after its deadline, timed out. The rules are
//! stated here over what a record says; the instructions that apply them to
//! records and balances stand in the lifecycle module.

use crate::address::{unset_key, zero_key, KeyBytes};
use crate::agent::AgentView;
use crate::capability::{byte_len, declares};
use crate::error::ErrorCode;
use vstd::prelude::*;

verus! {

/// The most bytes that a required capability may hold.
pub const MAX_CAPABILITY_LEN: usize = 64;

/// Where a task stands in its lifecycle.
#[derive(Clone, Copy, Debug, PartialEq, Eq, Structural)]
pub enum TaskStatus {
    /// Funded, waiting for a provider.
    Created,
    /// Taken by a provider.
    Accepted,
    /// The provider handed in a result.
    Delivered,
    /// The requester confirmed: the provider was paid.
    Completed,
    /// Reserved: no instruction leads here.
    Disputed,
    /// The requester withdrew the task before anyone took it.
    Cancelled,
    /// The deadline passed without a result: the requester was refunded.
    TimedOut,
}

impl Default for TaskStatus {
    /// A task starts as `Created`.
    fn default() -> (status: TaskStatus)
        ensures
            status == TaskStatus::Created,
    {
        TaskStatus::Created
    }
}

impl TaskStatus {
    /// The statuses that end a lifecycle: the vault has been drained, and
    /// nothing leads on.
    pub open spec fn terminal(self) -> bool {
        self == TaskStatus::Completed || self == TaskStatus::Cancelled || self == TaskStatus::TimedOut
    }

    /// Whether the status ends a lifecycle.
    pub fn is_terminal(&self) -> (ended: bool)
        ensures
            ended == self.terminal(),
    {
        match self {
            TaskStatus::Completed | TaskStatus::Cancelled | TaskStatus::TimedOut => true,
            _ => false,
        }
    }
}

/// The record of one task.
#[derive(Clone, Debug, PartialEq, Eq)]
pub struct TaskAccount {
    /// The id that the requester chose.
    pub id: KeyBytes,
    /// The key of the requester.
    pub requester: KeyBytes,
    /// The key of the provider; all zero until the task is accepted.
    pub provider: KeyBytes,
    /// The hash of the description, which is kept elsewhere.
    pub description_hash: [u8; 32],
    /// The capability tag that the provider must declare.
    pub required_capability: String,
    /// The reward held in the vault, in lamports.
    pub reward: u64,
    /// The moment after which an accepted task may be reclaimed.
    pub deadline: i64,
    /// Where the task stands.
    pub status: TaskStatus,
    /// The hash of the result; all zero until the task is delivered.
    pub result_hash: [u8; 32],
    /// When the task was created.
    pub created_at: i64,
    /// When the task was accepted, once it was.
    pub accepted_at: Option<i64>,
    /// When the result was delivered, once it was.
    pub delivered_at: Option<i64>,
    /// When the task was completed, once it was.
    pub completed_at: Option<i64>,
}

/// What a task record says, in unbounded numbers.
pub struct TaskView {
    /// The id that the requester chose.
    pub id: Seq<u8>,
    /// The key of the requester.
    pub requester: Seq<u8>,
    /// The key of the provider.
    pub provider: Seq<u8>,
    /// The hash of the description.
    pub description_hash: Seq<u8>,
    /// The capability tag that the provider must declare.
    pub required_capability: Seq<char>,
    /// The reward held in the vault.
    pub reward: nat,
    /// The moment after which an accepted task may be reclaimed.
    pub deadline: int,
    /// Where the task stands.
    pub status: TaskStatus,
    /// The hash of the result.
    pub result_hash: Seq<u8>,
    /// When the task was created.
    pub created_at: int,
    /// When the task was accepted, once it was.
    pub accepted_at: Option<int>,
    /// When the result was delivered, once it was.
    pub delivered_at: Option<int>,
    /// When the task was completed, once it was.
    pub completed_at: Option<int>,
}

/// A moment that may not have come yet.
pub open spec fn moment(at: Option<i64>) -> Option<int> {
    match at {
        Some(at) => Some(at as int),
        None => None,
    }
}

impl View for TaskAccount {
    type V = TaskView;

    open spec fn view(&self) -> TaskView {
        TaskView {
            id: self.id@,
            requester: self.requester@,
            provider: self.provider@,
            description_hash: self.description_hash@,
            required_capability: self.required_capability@,
            reward: self.reward as nat,
            deadline: self.deadline as int,
            status: self.status,
            result_hash: self.result_hash@,
            created_at: self.created_at as int,
            accepted_at: moment(self.accepted_at),
            delivered_at: moment(self.delivered_at),
            completed_at: moment(self.completed_at),
        }
    }
}

impl TaskAccount {
    /// The bytes that a stored task record takes at most.
    pub const MAX_SIZE: usize = 8 + 32 + 32 + 32 + 32 + (4 + 64) + 8 + 8 + 1 + 32 + 8 + (1 + 8) + (1 + 8)
        + (1 + 8);
}

impl Default for TaskAccount {
    /// An empty record: no party, no reward, status `Created`.
    fn default() -> (task: TaskAccount)
        ensures
            task.id@ == unset_key(),
            task.requester@ == unset_key(),
            task.provider@ == unset_key(),
            task.description_hash@ == unset_key(),
            task.required_capability@ == Seq::<char>::empty(),
            task.reward == 0,
            task.deadline == 0,
            task.status == TaskStatus::Created,
            task.result_hash@ == unset_key(),
            task.created_at == 0,
            task.accepted_at is None,
            task.delivered_at is None,
            task.completed_at is None,
    {
        TaskAccount {
            id: zero_key(),
            requester: zero_key(),
            provider: zero_key(),
            description_hash: zero_key(),
            required_capability: String::new(),
            reward: 0,
            deadline: 0,
            status: TaskStatus::Created,
            result_hash: zero_key(),
            created_at: 0,
            accepted_at: None,
            delivered_at: None,
            completed_at: None,
        }
    }
}

impl TaskView {
    /// The record of a task that has just been created: no provider, no
    /// result, none of the later moments reached.
    pub open spec fn created(
        id: Seq<u8>,
        requester: Seq<u8>,
        description_hash: Seq<u8>,
        required_capability: Seq<char>,
        reward: nat,
        deadline: int,
        now: int,
    ) -> TaskView {
        TaskView {
            id,
            requester,
            provider: unset_key(),
            description_hash,
            required_capability,
            reward,
            deadline,
            status: TaskStatus::Created,
            result_hash: unset_key(),
            created_at: now,
            accepted_at: None,
            delivered_at: None,
            completed_at: None,
        }
    }

    /// The record after `provider` accepted the task at `now`.
    pub open spec fn accepted(self, provider: Seq<u8>, now: int) -> TaskView {
        TaskView { provider, status: TaskStatus::Accepted, accepted_at: Some(now), ..self }
    }

    /// The record after the provider delivered `result_hash` at `now`.
    pub open spec fn delivered(self, result_hash: Seq<u8>, now: int) -> TaskView {
        TaskView { result_hash, status: TaskStatus::Delivered, delivered_at: Some(now), ..self }
    }

    /// The record after the requester confirmed the result at `now`.
    pub open spec fn completed(self, now: int) -> TaskView {
        TaskView { status: TaskStatus::Completed, completed_at: Some(now), ..self }
    }

    /// The record after the requester withdrew the task.
    pub open spec fn cancelled(self) -> TaskView {
        TaskView { status: TaskStatus::Cancelled, ..self }
    }

    /// The record after the requester reclaimed the reward of a task whose
    /// deadline passed.
    pub open spec fn timed_out(self) -> TaskView {
        TaskView { status: TaskStatus::TimedOut, ..self }
    }
}

/// Why a task cannot be created, the first that applies: the reward is zero;
/// the deadline is not after `now`; the required capability is too long.
pub open spec fn create_refusal(
    required_capability: Seq<char>,
    reward: nat,
    deadline: int,
    now: int,
) -> Option<ErrorCode> {
    if reward == 0 {
        Some(ErrorCode::InvalidReward)
    } else if deadline <= now {
        Some(ErrorCode::InvalidDeadline)
    } else if byte_len(required_capability) > MAX_CAPABILITY_LEN {
        Some(ErrorCode::CapabilityTooLong)
    } else {
        None
    }
}

/// Why `agent` cannot accept `task` at `now`, the first that applies: the
/// task is not `Created`; the agent is not active; the deadline has been
/// reached; the agent does not declare the required capability as one whole
/// tag.
pub open spec fn accept_refusal(task: TaskView, agent: AgentView, now: int) -> Option<ErrorCode> {
    if task.status != TaskStatus::Created {
        Some(ErrorCode::InvalidTaskStatus)
    } else if !agent.is_active {
        Some(ErrorCode::AgentNotActive)
    } else if task.deadline <= now {
        Some(ErrorCode::TaskExpired)
    } else if !declares(agent.capabilities, task.required_capability) {
        Some(ErrorCode::CapabilityMismatch)
    } else {
        None
    }
}

/// Why `provider` cannot deliver a result for `task`, the first that applies:
/// the task is not `Accepted`; the caller is not its provider.
pub open spec fn deliver_refusal(task: TaskView, provider: Seq<u8>) -> Option<ErrorCode> {
    if task.status != TaskStatus::Accepted {
        Some(ErrorCode::InvalidTaskStatus)
    } else if task.provider != provider {
        Some(ErrorCode::NotTaskProvider)
    } else {
        None
    }
}

/// Why `requester` cannot complete `task` in favour of `provider`, the first
/// that applies: the task is not `Delivered`; the party to be paid is not its
/// provider; the caller is not its requester.
pub open spec fn complete_refusal(task: TaskView, provider: Seq<u8>, requester: Seq<u8>) -> Option<
    ErrorCode,
> {
    if task.status != TaskStatus::Delivered {
        Some(ErrorCode::InvalidTaskStatus)
    } else if task.provider != provider {
        Some(ErrorCode::NotTaskProvider)
    } else if task.requester != requester {
        Some(ErrorCode::NotTaskRequester)
    } else {
        None
    }
}

/// Why `requester` cannot cancel `task`, the first that applies: the task is
/// not `Created`; the caller is not its requester. The deadline plays no
/// part.
pub open spec fn cancel_refusal(task: TaskView, requester: Seq<u8>) -> Option<ErrorCode> {
    if task.status != TaskStatus::Created {
        Some(ErrorCode::InvalidTaskStatus)
    } else if task.requester != requester {
        Some(ErrorCode::NotTaskRequester)
    } else {
        None
    }
}

/// Why `requester` cannot reclaim the reward of `task` at `now`, the first
/// that applies: the task is not `Accepted`; the caller is not its
/// requester; the deadline has not passed.
pub open spec fn timeout_refusal(task: TaskView, requester: Seq<u8>, now: int) -> Option<ErrorCode> {
    if task.status != TaskStatus::Accepted {
        Some(ErrorCode::InvalidTaskStatus)
    } else if task.requester != requester {
        Some(ErrorCode::NotTaskRequester)
    } else if now <= task.deadline {
        Some(ErrorCode::DeadlineNotReached)
    } else {
        None
    }
}

/// Cancelling does not look at the clock: whether a task may be cancelled is
/// the same whatever its deadline, so a task that nobody took can be
/// cancelled after its deadline as before.
pub proof fn lemma_cancel_ignores_deadline(task: TaskView, requester: Seq<u8>, deadline: int)
    ensures
        cancel_refusal(TaskView { deadline, ..task }, requester) == cancel_refusal(task, requester),
        task.status == TaskStatus::Created && task.requester == requester ==> cancel_refusal(
            task,
            requester,
        ) is None,
{
}

/// A task that nobody took does not time out, whoever asks and whenever: it
/// is refused for its status, and only a cancellation takes its reward back.
pub proof fn lemma_created_task_does_not_time_out(task: TaskView, requester: Seq<u8>, now: int)
    requires
        task.status == TaskStatus::Created,
    ensures
        timeout_refusal(task, requester, now) == Some(ErrorCode::InvalidTaskStatus),
{
}

} // verus!
