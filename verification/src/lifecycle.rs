//! The task lifecycle: the instructions that create, accept, deliver,
//! complete, cancel and time out a task.
//!
//! Each instruction checks every condition before it changes anything, and
//! checks the task's status right before value moves: a rejected instruction
//! leaves records and balances as they were, and a vault is drained once.
//!
//! An instruction that needs a derived address comes twice: under its own
//! name it derives the addresses and hands them on; with `_at` in its name it
//! takes them as arguments and does the rest.

use crate::address::{
    agent_address, agent_address_of, check_seeds, derived_view, escrow_address, escrow_address_of,
    keys_equal, seeds_rejection, task_address, task_address_of, zero_key, KeyBytes,
};
use crate::agent::AgentState;
use crate::capability::{has_capability, text_len};
use crate::error::{by_rule, first_of, ErrorCode, Rejection};
use crate::task::{
    accept_refusal, cancel_refusal, complete_refusal, create_refusal, deliver_refusal,
    timeout_refusal, TaskAccount, TaskStatus, TaskView, MAX_CAPABILITY_LEN,
};
use crate::vault::{transfer_rejection, EscrowVault, Wallet};
use vstd::prelude::*;

verus! {

/// What creating a task touches.
#[derive(Clone, Debug, PartialEq, Eq)]
pub struct CreateTask {
    /// The id of the program under which addresses are derived.
    pub program_id: KeyBytes,
    /// The address at which the new record is presented.
    pub task_address: KeyBytes,
    /// The record at that address: none before the creation.
    pub task_account: Option<TaskAccount>,
    /// The vault that is to hold the reward.
    pub escrow: EscrowVault,
    /// The requester, who signed and pays the reward.
    pub requester: Wallet,
}

/// What accepting a task touches.
#[derive(Clone, Debug, PartialEq, Eq)]
pub struct AcceptTask {
    /// The id of the program under which addresses are derived.
    pub program_id: KeyBytes,
    /// The task to accept.
    pub task_account: TaskAccount,
    /// The address at which the provider's agent record is presented.
    pub agent_address: KeyBytes,
    /// The provider's agent record.
    pub agent_account: AgentState,
    /// The key that signed: the provider.
    pub provider: KeyBytes,
}

/// What delivering a result touches.
#[derive(Clone, Debug, PartialEq, Eq)]
pub struct DeliverTask {
    /// The task to deliver.
    pub task_account: TaskAccount,
    /// The key that signed: the provider.
    pub provider: KeyBytes,
}

/// What completing a task touches.
#[derive(Clone, Debug, PartialEq, Eq)]
pub struct CompleteTask {
    /// The id of the program under which addresses are derived.
    pub program_id: KeyBytes,
    /// The task to complete.
    pub task_account: TaskAccount,
    /// The address at which the provider's agent record is presented.
    pub agent_address: KeyBytes,
    /// The provider's agent record.
    pub agent_account: AgentState,
    /// The party to be paid, as the requester names it.
    pub provider: Wallet,
    /// The vault that holds the reward.
    pub escrow: EscrowVault,
    /// The key that signed: the requester.
    pub requester: KeyBytes,
}

/// What cancelling a task touches.
#[derive(Clone, Debug, PartialEq, Eq)]
pub struct CancelTask {
    /// The id of the program under which addresses are derived.
    pub program_id: KeyBytes,
    /// The task to cancel.
    pub task_account: TaskAccount,
    /// The vault that holds the reward.
    pub escrow: EscrowVault,
    /// The requester, who signed and is refunded.
    pub requester: Wallet,
}

/// What timing out a task touches.
#[derive(Clone, Debug, PartialEq, Eq)]
pub struct TimeoutTask {
    /// The id of the program under which addresses are derived.
    pub program_id: KeyBytes,
    /// The task to time out.
    pub task_account: TaskAccount,
    /// The address at which the provider's agent record is presented.
    pub agent_address: KeyBytes,
    /// The agent record of the task's provider.
    pub agent_account: AgentState,
    /// The vault that holds the reward.
    pub escrow: EscrowVault,
    /// The requester, who signed and is refunded.
    pub requester: Wallet,
}

/// Why a creation is rejected, the first that applies: the record is not
/// presented at the address derived for the task id; a record stands there
/// already; the vault is not the one derived for the task id; a rule of
/// creation refuses; the requester cannot pay the reward into the vault.
pub open spec fn create_rejection(
    ctx: CreateTask,
    task_pda: Option<(Seq<u8>, u8)>,
    escrow_pda: Option<(Seq<u8>, u8)>,
    required_capability: Seq<char>,
    reward: nat,
    deadline: int,
    now: int,
) -> Option<Rejection> {
    first_of(
        seeds_rejection(task_pda, ctx.task_address@),
        first_of(
            if ctx.task_account is Some {
                Some(Rejection::AlreadyInitialized)
            } else {
                None
            },
            first_of(
                seeds_rejection(escrow_pda, ctx.escrow@.address),
                first_of(
                    by_rule(create_refusal(required_capability, reward, deadline, now)),
                    transfer_rejection(ctx.requester.lamports as nat, ctx.escrow@.lamports, reward),
                ),
            ),
        ),
    )
}

/// Why an acceptance is rejected, the first that applies: the agent record is
/// not the one derived for the provider's key; a rule of acceptance refuses.
pub open spec fn accept_rejection(ctx: AcceptTask, agent_pda: Option<(Seq<u8>, u8)>, now: int) -> Option<
    Rejection,
> {
    first_of(
        seeds_rejection(agent_pda, ctx.agent_address@),
        by_rule(accept_refusal(ctx.task_account@, ctx.agent_account@, now)),
    )
}

/// Why a completion is rejected, the first that applies: the agent record is
/// not the one derived for the key of the party to be paid; the vault is not
/// the one derived for the task id; a rule of completion refuses; the vault
/// cannot pay the reward to the provider.
pub open spec fn complete_rejection(
    ctx: CompleteTask,
    agent_pda: Option<(Seq<u8>, u8)>,
    escrow_pda: Option<(Seq<u8>, u8)>,
) -> Option<Rejection> {
    first_of(
        seeds_rejection(agent_pda, ctx.agent_address@),
        first_of(
            seeds_rejection(escrow_pda, ctx.escrow@.address),
            first_of(
                by_rule(complete_refusal(ctx.task_account@, ctx.provider.key@, ctx.requester@)),
                transfer_rejection(
                    ctx.escrow@.lamports,
                    ctx.provider.lamports as nat,
                    ctx.task_account.reward as nat,
                ),
            ),
        ),
    )
}

/// Why a cancellation is rejected, the first that applies: the vault is not
/// the one derived for the task id; a rule of cancellation refuses; the
/// vault cannot pay the reward back.
pub open spec fn cancel_rejection(ctx: CancelTask, escrow_pda: Option<(Seq<u8>, u8)>) -> Option<Rejection> {
    first_of(
        seeds_rejection(escrow_pda, ctx.escrow@.address),
        first_of(
            by_rule(cancel_refusal(ctx.task_account@, ctx.requester.key@)),
            transfer_rejection(
                ctx.escrow@.lamports,
                ctx.requester.lamports as nat,
                ctx.task_account.reward as nat,
            ),
        ),
    )
}

/// Why a timeout is rejected, the first that applies: the agent record is not
/// the one derived for the key of the task's provider; the vault is not the
/// one derived for the task id; a rule of the timeout refuses; the vault
/// cannot pay the reward back.
pub open spec fn timeout_rejection(
    ctx: TimeoutTask,
    agent_pda: Option<(Seq<u8>, u8)>,
    escrow_pda: Option<(Seq<u8>, u8)>,
    now: int,
) -> Option<Rejection> {
    first_of(
        seeds_rejection(agent_pda, ctx.agent_address@),
        first_of(
            seeds_rejection(escrow_pda, ctx.escrow@.address),
            first_of(
                by_rule(timeout_refusal(ctx.task_account@, ctx.requester.key@, now)),
                transfer_rejection(
                    ctx.escrow@.lamports,
                    ctx.requester.lamports as nat,
                    ctx.task_account.reward as nat,
                ),
            ),
        ),
    )
}

/// Creates a task and funds its vault, given the addresses derived for the
/// task id: `task_pda` for the record, `escrow_pda` for the vault.
///
/// On success the reward has moved from the requester into the vault, and the
/// record is `Created` with no provider. On a rejection nothing changes.
pub fn create_task_at(
    ctx: &mut CreateTask,
    task_pda: &Option<(KeyBytes, u8)>,
    escrow_pda: &Option<(KeyBytes, u8)>,
    task_id: KeyBytes,
    description_hash: [u8; 32],
    required_capability: String,
    reward: u64,
    deadline: i64,
    now: i64,
) -> (outcome: Result<(), Rejection>)
    ensures
        match create_rejection(
            *old(ctx),
            derived_view(*task_pda),
            derived_view(*escrow_pda),
            required_capability@,
            reward as nat,
            deadline as int,
            now as int,
        ) {
            Some(rejection) => outcome == Err::<(), Rejection>(rejection) && *final(ctx) == *old(ctx),
            None => {
                &&& outcome == Ok::<(), Rejection>(())
                &&& final(ctx).program_id == old(ctx).program_id
                &&& final(ctx).task_address == old(ctx).task_address
                &&& final(ctx).task_account matches Some(task)
                &&& task@ == TaskView::created(
                    task_id@,
                    old(ctx).requester.key@,
                    description_hash@,
                    required_capability@,
                    reward as nat,
                    deadline as int,
                    now as int,
                )
                &&& final(ctx).requester.key == old(ctx).requester.key
                &&& final(ctx).requester.lamports == old(ctx).requester.lamports - reward
                &&& final(ctx).escrow@.address == old(ctx).escrow@.address
                &&& final(ctx).escrow@.lamports == old(ctx).escrow@.lamports + reward
            },
        },
{
    check_seeds(task_pda, &ctx.task_address)?;
    if ctx.task_account.is_some() {
        return Err(Rejection::AlreadyInitialized);
    }
    check_seeds(escrow_pda, &ctx.escrow.address())?;
    if reward == 0 {
        return Err(Rejection::Program(ErrorCode::InvalidReward));
    }
    if deadline <= now {
        return Err(Rejection::Program(ErrorCode::InvalidDeadline));
    }
    if text_len(required_capability.as_str()) > MAX_CAPABILITY_LEN {
        return Err(Rejection::Program(ErrorCode::CapabilityTooLong));
    }
    ctx.escrow.fund(escrow_pda, &mut ctx.requester, reward)?;
    ctx.task_account = Some(
        TaskAccount {
            id: task_id,
            requester: ctx.requester.key,
            provider: zero_key(),
            description_hash,
            required_capability,
            reward,
            deadline,
            status: TaskStatus::Created,
            result_hash: zero_key(),
            created_at: now,
            accepted_at: None,
            delivered_at: None,
            completed_at: None,
        },
    );
    Ok(())
}

/// Creates a task under the id `task_id` and moves its reward into the vault
/// derived from that id.
///
/// Rejected where the record or the vault is presented at another address
/// than the one derived from the task id, where a task of that id exists,
/// where the reward is zero, the deadline is not after `now` or the required
/// capability exceeds 64 bytes, and where the requester cannot pay.
pub fn create_task(
    ctx: &mut CreateTask,
    task_id: KeyBytes,
    description_hash: [u8; 32],
    required_capability: String,
    reward: u64,
    deadline: i64,
    now: i64,
) -> (outcome: Result<(), Rejection>)
    ensures
        match create_rejection(
            *old(ctx),
            task_address_of(task_id@, old(ctx).program_id@),
            escrow_address_of(task_id@, old(ctx).program_id@),
            required_capability@,
            reward as nat,
            deadline as int,
            now as int,
        ) {
            Some(rejection) => outcome == Err::<(), Rejection>(rejection) && *final(ctx) == *old(ctx),
            None => {
                &&& outcome == Ok::<(), Rejection>(())
                &&& final(ctx).program_id == old(ctx).program_id
                &&& final(ctx).task_address == old(ctx).task_address
                &&& final(ctx).task_account matches Some(task)
                &&& task@ == TaskView::created(
                    task_id@,
                    old(ctx).requester.key@,
                    description_hash@,
                    required_capability@,
                    reward as nat,
                    deadline as int,
                    now as int,
                )
                &&& final(ctx).requester.key == old(ctx).requester.key
                &&& final(ctx).requester.lamports == old(ctx).requester.lamports - reward
                &&& final(ctx).escrow@.address == old(ctx).escrow@.address
                &&& final(ctx).escrow@.lamports == old(ctx).escrow@.lamports + reward
            },
        },
{
    let task_pda = task_address(&task_id, &ctx.program_id);
    let escrow_pda = escrow_address(&task_id, &ctx.program_id);
    create_task_at(
        ctx,
        &task_pda,
        &escrow_pda,
        task_id,
        description_hash,
        required_capability,
        reward,
        deadline,
        now,
    )
}

/// Accepts a task for a provider, given the address `agent_pda` derived for
/// the provider's key.
///
/// On success the task is `Accepted`, names the provider, and records `now`.
/// On a rejection nothing changes. The agent record never changes.
pub fn accept_task_at(ctx: &mut AcceptTask, agent_pda: &Option<(KeyBytes, u8)>, now: i64) -> (outcome: Result<
    (),
    Rejection,
>)
    ensures
        *final(ctx) == (AcceptTask { task_account: final(ctx).task_account, ..*old(ctx) }),
        match accept_rejection(*old(ctx), derived_view(*agent_pda), now as int) {
            Some(rejection) => outcome == Err::<(), Rejection>(rejection) && *final(ctx) == *old(ctx),
            None => {
                &&& outcome == Ok::<(), Rejection>(())
                &&& final(ctx).task_account@ == old(ctx).task_account@.accepted(
                    old(ctx).provider@,
                    now as int,
                )
            },
        },
{
    check_seeds(agent_pda, &ctx.agent_address)?;
    if ctx.task_account.status != TaskStatus::Created {
        return Err(Rejection::Program(ErrorCode::InvalidTaskStatus));
    }
    if !ctx.agent_account.is_active {
        return Err(Rejection::Program(ErrorCode::AgentNotActive));
    }
    if ctx.task_account.deadline <= now {
        return Err(Rejection::Program(ErrorCode::TaskExpired));
    }
    if !has_capability(
        ctx.agent_account.capabilities.as_str(),
        ctx.task_account.required_capability.as_str(),
    ) {
        return Err(Rejection::Program(ErrorCode::CapabilityMismatch));
    }
    ctx.task_account.provider = ctx.provider;
    ctx.task_account.status = TaskStatus::Accepted;
    ctx.task_account.accepted_at = Some(now);
    Ok(())
}

/// Accepts a task for the provider that signed.
///
/// Rejected where the agent record is not the provider's own, where the task
/// is not `Created`, where the agent is not active, where the deadline has
/// been reached, and where the agent does not declare the required capability
/// as one whole tag.
pub fn accept_task(ctx: &mut AcceptTask, now: i64) -> (outcome: Result<(), Rejection>)
    ensures
        *final(ctx) == (AcceptTask { task_account: final(ctx).task_account, ..*old(ctx) }),
        match accept_rejection(
            *old(ctx),
            agent_address_of(old(ctx).provider@, old(ctx).program_id@),
            now as int,
        ) {
            Some(rejection) => outcome == Err::<(), Rejection>(rejection) && *final(ctx) == *old(ctx),
            None => {
                &&& outcome == Ok::<(), Rejection>(())
                &&& final(ctx).task_account@ == old(ctx).task_account@.accepted(
                    old(ctx).provider@,
                    now as int,
                )
            },
        },
{
    let agent_pda = agent_address(&ctx.provider, &ctx.program_id);
    accept_task_at(ctx, &agent_pda, now)
}

/// Hands in the result of a task.
///
/// Rejected where the task is not `Accepted` and where the caller is not its
/// provider; nothing changes then. On success the task is `Delivered`, holds
/// the hash of the result, and records `now`.
pub fn deliver_task(ctx: &mut DeliverTask, result_hash: [u8; 32], now: i64) -> (outcome: Result<
    (),
    Rejection,
>)
    ensures
        final(ctx).provider == old(ctx).provider,
        match by_rule(deliver_refusal(old(ctx).task_account@, old(ctx).provider@)) {
            Some(rejection) => outcome == Err::<(), Rejection>(rejection) && *final(ctx) == *old(ctx),
            None => {
                &&& outcome == Ok::<(), Rejection>(())
                &&& final(ctx).task_account@ == old(ctx).task_account@.delivered(
                    result_hash@,
                    now as int,
                )
            },
        },
{
    if ctx.task_account.status != TaskStatus::Accepted {
        return Err(Rejection::Program(ErrorCode::InvalidTaskStatus));
    }
    if !keys_equal(&ctx.task_account.provider, &ctx.provider) {
        return Err(Rejection::Program(ErrorCode::NotTaskProvider));
    }
    ctx.task_account.result_hash = result_hash;
    ctx.task_account.status = TaskStatus::Delivered;
    ctx.task_account.delivered_at = Some(now);
    Ok(())
}

/// Completes a task, given the addresses derived for it: `agent_pda` for the
/// key of the party to be paid, `escrow_pda` for the task id.
///
/// On success the reward has moved from the vault to the provider, the
/// provider's agent record counts one more completed task with its
/// reputation raised, and the task is `Completed` and records `now`. On a
/// rejection nothing changes.
pub fn complete_task_at(
    ctx: &mut CompleteTask,
    agent_pda: &Option<(KeyBytes, u8)>,
    escrow_pda: &Option<(KeyBytes, u8)>,
    now: i64,
) -> (outcome: Result<(), Rejection>)
    requires
        old(ctx).agent_account.tasks_completed < u64::MAX,
    ensures
        match complete_rejection(*old(ctx), derived_view(*agent_pda), derived_view(*escrow_pda)) {
            Some(rejection) => outcome == Err::<(), Rejection>(rejection) && *final(ctx) == *old(ctx),
            None => {
                &&& outcome == Ok::<(), Rejection>(())
                &&& final(ctx).program_id == old(ctx).program_id
                &&& final(ctx).agent_address == old(ctx).agent_address
                &&& final(ctx).requester == old(ctx).requester
                &&& final(ctx).task_account@ == old(ctx).task_account@.completed(now as int)
                &&& final(ctx).agent_account@ == old(ctx).agent_account@.after_completion()
                &&& final(ctx).escrow@.address == old(ctx).escrow@.address
                &&& final(ctx).escrow@.lamports == old(ctx).escrow@.lamports - old(
                    ctx,
                ).task_account.reward
                &&& final(ctx).provider.key == old(ctx).provider.key
                &&& final(ctx).provider.lamports == old(ctx).provider.lamports + old(
                    ctx,
                ).task_account.reward
            },
        },
{
    check_seeds(agent_pda, &ctx.agent_address)?;
    check_seeds(escrow_pda, &ctx.escrow.address())?;
    if ctx.task_account.status != TaskStatus::Delivered {
        return Err(Rejection::Program(ErrorCode::InvalidTaskStatus));
    }
    if !keys_equal(&ctx.task_account.provider, &ctx.provider.key) {
        return Err(Rejection::Program(ErrorCode::NotTaskProvider));
    }
    if !keys_equal(&ctx.task_account.requester, &ctx.requester) {
        return Err(Rejection::Program(ErrorCode::NotTaskRequester));
    }
    ctx.escrow.release(escrow_pda, &mut ctx.provider, ctx.task_account.reward)?;
    ctx.agent_account.apply_completion();
    ctx.task_account.status = TaskStatus::Completed;
    ctx.task_account.completed_at = Some(now);
    Ok(())
}

/// Completes a delivered task on the requester's confirmation: the vault
/// pays the provider.
///
/// Rejected where the agent record is not that of the party to be paid,
/// where the vault is not the one derived from the task id, where the task
/// is not `Delivered`, where the party to be paid is not the task's provider,
/// where the caller is not the task's requester, and where the vault cannot
/// pay.
pub fn complete_task(ctx: &mut CompleteTask, now: i64) -> (outcome: Result<(), Rejection>)
    requires
        old(ctx).agent_account.tasks_completed < u64::MAX,
    ensures
        match complete_rejection(
            *old(ctx),
            agent_address_of(old(ctx).provider.key@, old(ctx).program_id@),
            escrow_address_of(old(ctx).task_account.id@, old(ctx).program_id@),
        ) {
            Some(rejection) => outcome == Err::<(), Rejection>(rejection) && *final(ctx) == *old(ctx),
            None => {
                &&& outcome == Ok::<(), Rejection>(())
                &&& final(ctx).program_id == old(ctx).program_id
                &&& final(ctx).agent_address == old(ctx).agent_address
                &&& final(ctx).requester == old(ctx).requester
                &&& final(ctx).task_account@ == old(ctx).task_account@.completed(now as int)
                &&& final(ctx).agent_account@ == old(ctx).agent_account@.after_completion()
                &&& final(ctx).escrow@.address == old(ctx).escrow@.address
                &&& final(ctx).escrow@.lamports == old(ctx).escrow@.lamports - old(
                    ctx,
                ).task_account.reward
                &&& final(ctx).provider.key == old(ctx).provider.key
                &&& final(ctx).provider.lamports == old(ctx).provider.lamports + old(
                    ctx,
                ).task_account.reward
            },
        },
{
    let agent_pda = agent_address(&ctx.provider.key, &ctx.program_id);
    let escrow_pda = escrow_address(&ctx.task_account.id, &ctx.program_id);
    complete_task_at(ctx, &agent_pda, &escrow_pda, now)
}

/// Cancels a task that nobody accepted, given the address `escrow_pda`
/// derived for the task id.
///
/// On success the reward has moved from the vault back to the requester and
/// the task is `Cancelled`. On a rejection nothing changes.
pub fn cancel_task_at(ctx: &mut CancelTask, escrow_pda: &Option<(KeyBytes, u8)>) -> (outcome: Result<
    (),
    Rejection,
>)
    ensures
        match cancel_rejection(*old(ctx), derived_view(*escrow_pda)) {
            Some(rejection) => outcome == Err::<(), Rejection>(rejection) && *final(ctx) == *old(ctx),
            None => {
                &&& outcome == Ok::<(), Rejection>(())
                &&& final(ctx).program_id == old(ctx).program_id
                &&& final(ctx).task_account@ == old(ctx).task_account@.cancelled()
                &&& final(ctx).escrow@.address == old(ctx).escrow@.address
                &&& final(ctx).escrow@.lamports == old(ctx).escrow@.lamports - old(
                    ctx,
                ).task_account.reward
                &&& final(ctx).requester.key == old(ctx).requester.key
                &&& final(ctx).requester.lamports == old(ctx).requester.lamports + old(
                    ctx,
                ).task_account.reward
            },
        },
{
    check_seeds(escrow_pda, &ctx.escrow.address())?;
    if ctx.task_account.status != TaskStatus::Created {
        return Err(Rejection::Program(ErrorCode::InvalidTaskStatus));
    }
    if !keys_equal(&ctx.task_account.requester, &ctx.requester.key) {
        return Err(Rejection::Program(ErrorCode::NotTaskRequester));
    }
    ctx.escrow.release(escrow_pda, &mut ctx.requester, ctx.task_account.reward)?;
    ctx.task_account.status = TaskStatus::Cancelled;
    Ok(())
}

/// Cancels a task that nobody accepted: the vault pays the requester back.
/// The deadline plays no part.
///
/// Rejected where the vault is not the one derived from the task id, where
/// the task is not `Created`, where the caller is not the task's requester,
/// and where the vault cannot pay.
pub fn cancel_task(ctx: &mut CancelTask) -> (outcome: Result<(), Rejection>)
    ensures
        match cancel_rejection(
            *old(ctx),
            escrow_address_of(old(ctx).task_account.id@, old(ctx).program_id@),
        ) {
            Some(rejection) => outcome == Err::<(), Rejection>(rejection) && *final(ctx) == *old(ctx),
            None => {
                &&& outcome == Ok::<(), Rejection>(())
                &&& final(ctx).program_id == old(ctx).program_id
                &&& final(ctx).task_account@ == old(ctx).task_account@.cancelled()
                &&& final(ctx).escrow@.address == old(ctx).escrow@.address
                &&& final(ctx).escrow@.lamports == old(ctx).escrow@.lamports - old(
                    ctx,
                ).task_account.reward
                &&& final(ctx).requester.key == old(ctx).requester.key
                &&& final(ctx).requester.lamports == old(ctx).requester.lamports + old(
                    ctx,
                ).task_account.reward
            },
        },
{
    let escrow_pda = escrow_address(&ctx.task_account.id, &ctx.program_id);
    cancel_task_at(ctx, &escrow_pda)
}

/// Times out an accepted task whose deadline passed, given the addresses
/// derived for it: `agent_pda` for the key of the task's provider,
/// `escrow_pda` for the task id.
///
/// On success the reward has moved from the vault back to the requester, the
/// provider's agent record counts one more failure with its reputation
/// lowered, and the task is `TimedOut`. On a rejection nothing changes.
pub fn timeout_task_at(
    ctx: &mut TimeoutTask,
    agent_pda: &Option<(KeyBytes, u8)>,
    escrow_pda: &Option<(KeyBytes, u8)>,
    now: i64,
) -> (outcome: Result<(), Rejection>)
    requires
        old(ctx).agent_account.tasks_failed < u64::MAX,
    ensures
        match timeout_rejection(
            *old(ctx),
            derived_view(*agent_pda),
            derived_view(*escrow_pda),
            now as int,
        ) {
            Some(rejection) => outcome == Err::<(), Rejection>(rejection) && *final(ctx) == *old(ctx),
            None => {
                &&& outcome == Ok::<(), Rejection>(())
                &&& final(ctx).program_id == old(ctx).program_id
                &&& final(ctx).agent_address == old(ctx).agent_address
                &&& final(ctx).task_account@ == old(ctx).task_account@.timed_out()
                &&& final(ctx).agent_account@ == old(ctx).agent_account@.after_failure()
                &&& final(ctx).escrow@.address == old(ctx).escrow@.address
                &&& final(ctx).escrow@.lamports == old(ctx).escrow@.lamports - old(
                    ctx,
                ).task_account.reward
                &&& final(ctx).requester.key == old(ctx).requester.key
                &&& final(ctx).requester.lamports == old(ctx).requester.lamports + old(
                    ctx,
                ).task_account.reward
            },
        },
{
    check_seeds(agent_pda, &ctx.agent_address)?;
    check_seeds(escrow_pda, &ctx.escrow.address())?;
    if ctx.task_account.status != TaskStatus::Accepted {
        return Err(Rejection::Program(ErrorCode::InvalidTaskStatus));
    }
    if !keys_equal(&ctx.task_account.requester, &ctx.requester.key) {
        return Err(Rejection::Program(ErrorCode::NotTaskRequester));
    }
    if now <= ctx.task_account.deadline {
        return Err(Rejection::Program(ErrorCode::DeadlineNotReached));
    }
    ctx.escrow.release(escrow_pda, &mut ctx.requester, ctx.task_account.reward)?;
    ctx.agent_account.apply_failure();
    ctx.task_account.status = TaskStatus::TimedOut;
    Ok(())
}

/// Times out an accepted task after its deadline: the vault pays the
/// requester back, and the provider's reputation is lowered.
///
/// Rejected where the agent record is not that of the task's provider, where
/// the vault is not the one derived from the task id, where the task is not
/// `Accepted`, where the caller is not the task's requester, where `now` is
/// not after the deadline, and where the vault cannot pay.
pub fn timeout_task(ctx: &mut TimeoutTask, now: i64) -> (outcome: Result<(), Rejection>)
    requires
        old(ctx).agent_account.tasks_failed < u64::MAX,
    ensures
        match timeout_rejection(
            *old(ctx),
            agent_address_of(old(ctx).task_account.provider@, old(ctx).program_id@),
            escrow_address_of(old(ctx).task_account.id@, old(ctx).program_id@),
            now as int,
        ) {
            Some(rejection) => outcome == Err::<(), Rejection>(rejection) && *final(ctx) == *old(ctx),
            None => {
                &&& outcome == Ok::<(), Rejection>(())
                &&& final(ctx).program_id == old(ctx).program_id
                &&& final(ctx).agent_address == old(ctx).agent_address
                &&& final(ctx).task_account@ == old(ctx).task_account@.timed_out()
                &&& final(ctx).agent_account@ == old(ctx).agent_account@.after_failure()
                &&& final(ctx).escrow@.address == old(ctx).escrow@.address
                &&& final(ctx).escrow@.lamports == old(ctx).escrow@.lamports - old(
                    ctx,
                ).task_account.reward
                &&& final(ctx).requester.key == old(ctx).requester.key
                &&& final(ctx).requester.lamports == old(ctx).requester.lamports + old(
                    ctx,
                ).task_account.reward
            },
        },
{
    let agent_pda = agent_address(&ctx.task_account.provider, &ctx.program_id);
    let escrow_pda = escrow_address(&ctx.task_account.id, &ctx.program_id);
    timeout_task_at(ctx, &agent_pda, &escrow_pda, now)
}

} // verus!
