//! The account of one task's escrow over the task's whole life.
//!
//! The lifecycle's instructions are taken here as steps on what a task's
//! record says and on what its vault holds, together with the sums of all
//! that was funded and released. An instruction that the lifecycle rejects
//! changes nothing, so a life of a task is a run of the steps that went
//! through. Of every such run it is shown that the vault holds the reward
//! until one release drains it, and that nothing is released twice.

use crate::address::unset_key;
use crate::agent::AgentView;
use crate::capability::byte_len;
use crate::error::ErrorCode;
use crate::lifecycle::{
    accept_rejection, cancel_rejection, complete_rejection, create_rejection, timeout_rejection,
    AcceptTask, CancelTask, CompleteTask, CreateTask, DeliverTask, TimeoutTask,
};
use crate::task::{
    accept_refusal, cancel_refusal, complete_refusal, create_refusal, deliver_refusal,
    timeout_refusal, TaskStatus, TaskView, MAX_CAPABILITY_LEN,
};
use vstd::prelude::*;

verus! {

/// A task's record with the account of its vault.
pub struct EscrowHistory {
    /// What the task's record says.
    pub task: TaskView,
    /// What the vault holds.
    pub vault: nat,
    /// The sum of all amounts funded into the vault for the task.
    pub funded: nat,
    /// The sum of all amounts released from the vault.
    pub released: nat,
    /// How many times the vault released.
    pub releases: nat,
}

/// An instruction on an existing task.
pub enum Instruction {
    /// The provider with the record `agent` accepts at `now`.
    Accept { agent: AgentView, provider: Seq<u8>, now: int },
    /// `provider` delivers `result_hash` at `now`.
    Deliver { provider: Seq<u8>, result_hash: Seq<u8>, now: int },
    /// `requester` completes at `now` in favour of `provider`.
    Complete { provider: Seq<u8>, requester: Seq<u8>, now: int },
    /// `requester` cancels.
    Cancel { requester: Seq<u8> },
    /// `requester` reclaims the reward at `now`.
    Timeout { requester: Seq<u8>, now: int },
}

/// The history right after a creation went through: the record is new, and
/// the reward has been funded into a vault that held `before`.
pub open spec fn opened(
    id: Seq<u8>,
    requester: Seq<u8>,
    description_hash: Seq<u8>,
    required_capability: Seq<char>,
    reward: nat,
    deadline: int,
    now: int,
    before: nat,
) -> EscrowHistory {
    EscrowHistory {
        task: TaskView::created(
            id,
            requester,
            description_hash,
            required_capability,
            reward,
            deadline,
            now,
        ),
        vault: before + reward,
        funded: reward,
        released: 0,
        releases: 0,
    }
}

/// Why the lifecycle's rules refuse an instruction on a task.
pub open spec fn refusal(task: TaskView, instruction: Instruction) -> Option<ErrorCode> {
    match instruction {
        Instruction::Accept { agent, now, .. } => accept_refusal(task, agent, now),
        Instruction::Deliver { provider, .. } => deliver_refusal(task, provider),
        Instruction::Complete { provider, requester, .. } => complete_refusal(
            task,
            provider,
            requester,
        ),
        Instruction::Cancel { requester } => cancel_refusal(task, requester),
        Instruction::Timeout { requester, now } => timeout_refusal(task, requester, now),
    }
}

/// What the record says after an instruction went through.
pub open spec fn record_after(task: TaskView, instruction: Instruction) -> TaskView {
    match instruction {
        Instruction::Accept { provider, now, .. } => task.accepted(provider, now),
        Instruction::Deliver { result_hash, now, .. } => task.delivered(result_hash, now),
        Instruction::Complete { now, .. } => task.completed(now),
        Instruction::Cancel { .. } => task.cancelled(),
        Instruction::Timeout { .. } => task.timed_out(),
    }
}

/// Whether an instruction releases the reward from the vault.
pub open spec fn releases_reward(instruction: Instruction) -> bool {
    instruction is Complete || instruction is Cancel || instruction is Timeout
}

/// The history after one instruction. Where the rules refuse it, or where it
/// would release more than the vault holds, nothing changes. Otherwise the
/// record moves on, and an instruction that releases takes the reward out of
/// the vault.
pub open spec fn step(history: EscrowHistory, instruction: Instruction) -> EscrowHistory {
    if refusal(history.task, instruction) is Some {
        history
    } else if !releases_reward(instruction) {
        EscrowHistory { task: record_after(history.task, instruction), ..history }
    } else if history.vault < history.task.reward {
        history
    } else {
        EscrowHistory {
            task: record_after(history.task, instruction),
            vault: (history.vault - history.task.reward) as nat,
            funded: history.funded,
            released: history.released + history.task.reward,
            releases: history.releases + 1,
        }
    }
}

/// The history after a run of instructions, the first of them first.
pub open spec fn run(history: EscrowHistory, instructions: Seq<Instruction>) -> EscrowHistory
    decreases instructions.len(),
{
    if instructions.len() == 0 {
        history
    } else {
        step(run(history, instructions.drop_last()), instructions.last())
    }
}

/// The vault's account is in balance, for a vault that held `before` when the
/// task was created: the reward was funded once; until the task ends nothing
/// has been released and the vault holds the reward on top of `before`; once
/// the task has ended, exactly the reward has been released, in one release.
pub open spec fn in_balance(history: EscrowHistory, before: nat) -> bool {
    &&& history.funded == history.task.reward
    &&& history.vault + history.released == before + history.funded
    &&& if history.task.status.terminal() {
        history.released == history.funded && history.releases == 1
    } else {
        history.released == 0 && history.releases == 0
    }
}

/// The record says of each moment of the task's life what its status
/// allows: a provider, a result and the moments of acceptance, delivery and
/// completion are set once the task has passed them, and unset before. The
/// reward is positive and the task was created before its deadline.
pub open spec fn consistent(task: TaskView) -> bool {
    &&& task.reward > 0
    &&& task.created_at < task.deadline
    &&& byte_len(task.required_capability) <= MAX_CAPABILITY_LEN
    &&& task.status != TaskStatus::Disputed
    &&& task.accepted_at is Some <==> task.status == TaskStatus::Accepted || task.status
        == TaskStatus::Delivered || task.status == TaskStatus::Completed || task.status
        == TaskStatus::TimedOut
    &&& task.delivered_at is Some <==> task.status == TaskStatus::Delivered || task.status
        == TaskStatus::Completed
    &&& task.completed_at is Some <==> task.status == TaskStatus::Completed
    &&& task.accepted_at matches Some(at) ==> at < task.deadline
    &&& task.accepted_at is None ==> task.provider == unset_key()
    &&& task.delivered_at is None ==> task.result_hash == unset_key()
}

/// Conservation, step by step: one instruction keeps the vault's account in
/// balance and the record consistent, and never changes the task's id, its
/// requester, its reward or its deadline.
pub proof fn lemma_step_keeps_balance(history: EscrowHistory, instruction: Instruction, before: nat)
    requires
        in_balance(history, before),
        consistent(history.task),
    ensures
        in_balance(step(history, instruction), before),
        consistent(step(history, instruction).task),
        step(history, instruction).task.id == history.task.id,
        step(history, instruction).task.requester == history.task.requester,
        step(history, instruction).task.reward == history.task.reward,
        step(history, instruction).task.deadline == history.task.deadline,
        step(history, instruction).releases <= history.releases + 1,
{
}

/// Conservation over a task's whole life. After a creation that the rules
/// allow and any run of instructions, the vault's account is in balance:
/// while the task has not ended, the vault holds the reward and nothing has
/// been released; once it has ended, the sum released equals the sum funded,
/// and the vault released exactly once. No run leads to `Disputed`.
pub proof fn lemma_conservation(
    id: Seq<u8>,
    requester: Seq<u8>,
    description_hash: Seq<u8>,
    required_capability: Seq<char>,
    reward: nat,
    deadline: int,
    now: int,
    before: nat,
    instructions: Seq<Instruction>,
)
    requires
        create_refusal(required_capability, reward, deadline, now) is None,
    ensures
        ({
            let end = run(
                opened(
                    id,
                    requester,
                    description_hash,
                    required_capability,
                    reward,
                    deadline,
                    now,
                    before,
                ),
                instructions,
            );
            &&& in_balance(end, before)
            &&& consistent(end.task)
            &&& end.task.id == id
            &&& end.task.requester == requester
            &&& end.task.reward == reward
            &&& end.funded == reward
            &&& end.task.status != TaskStatus::Disputed
            &&& end.releases <= 1
            &&& end.task.status.terminal() ==> end.released == end.funded && end.vault == before
            &&& !end.task.status.terminal() ==> end.released == 0 && end.vault == before + reward
        }),
    decreases instructions.len(),
{
    let start = opened(
        id,
        requester,
        description_hash,
        required_capability,
        reward,
        deadline,
        now,
        before,
    );
    if instructions.len() > 0 {
        lemma_conservation(
            id,
            requester,
            description_hash,
            required_capability,
            reward,
            deadline,
            now,
            before,
            instructions.drop_last(),
        );
        lemma_step_keeps_balance(run(start, instructions.drop_last()), instructions.last(), before);
    }
}

/// The paths of a lifecycle: `Created` leads to `Accepted` or `Cancelled`,
/// `Accepted` to `Delivered` or `TimedOut`, `Delivered` to `Completed`, and
/// nothing else leads anywhere.
pub open spec fn leads_to(from: TaskStatus, to: TaskStatus) -> bool {
    ||| from == TaskStatus::Created && (to == TaskStatus::Accepted || to == TaskStatus::Cancelled)
    ||| from == TaskStatus::Accepted && (to == TaskStatus::Delivered || to == TaskStatus::TimedOut)
    ||| from == TaskStatus::Delivered && to == TaskStatus::Completed
}

/// Every instruction that goes through moves the task along one path of the
/// lifecycle; one that does not leaves the whole history as it was.
pub proof fn lemma_steps_follow_the_lifecycle(history: EscrowHistory, instruction: Instruction)
    ensures
        step(history, instruction) == history || leads_to(
            history.task.status,
            step(history, instruction).task.status,
        ),
        history.task.status == TaskStatus::Disputed ==> step(history, instruction) == history,
{
}

/// A task that has ended stays as it is: the rules refuse every instruction
/// on it for its status, and no run of instructions changes its record or
/// moves anything out of its vault.
pub proof fn lemma_ended_task_stays(history: EscrowHistory, instructions: Seq<Instruction>)
    requires
        history.task.status.terminal(),
    ensures
        run(history, instructions) == history,
        forall|instruction: Instruction| #[trigger]
            refusal(history.task, instruction) == Some(ErrorCode::InvalidTaskStatus),
    decreases instructions.len(),
{
    if instructions.len() > 0 {
        lemma_ended_task_stays(history, instructions.drop_last());
    }
}

/// Completing twice: once a completion went through, the rules refuse every
/// further completion for the task's status, whoever asks and whenever, and
/// the vault's account does not move again.
pub proof fn lemma_second_completion_refused(
    history: EscrowHistory,
    provider: Seq<u8>,
    requester: Seq<u8>,
    now: int,
    again_provider: Seq<u8>,
    again_requester: Seq<u8>,
    again_now: int,
)
    requires
        complete_refusal(history.task, provider, requester) is None,
        history.vault >= history.task.reward,
    ensures
        ({
            let first = step(history, Instruction::Complete { provider, requester, now });
            let again = Instruction::Complete {
                provider: again_provider,
                requester: again_requester,
                now: again_now,
            };
            &&& first.task.status == TaskStatus::Completed
            &&& first.released == history.released + history.task.reward
            &&& complete_refusal(first.task, again_provider, again_requester) == Some(
                ErrorCode::InvalidTaskStatus,
            )
            &&& step(first, again) == first
        }),
{
}

/// Value leaves the vault only as the task ends: an instruction that moves
/// the vault's balance starts from a task that has not ended and leaves one
/// that has, and it moves exactly the reward.
pub proof fn lemma_release_ends_task(history: EscrowHistory, instruction: Instruction)
    ensures
        step(history, instruction).vault != history.vault ==> {
            &&& !history.task.status.terminal()
            &&& step(history, instruction).task.status.terminal()
            &&& step(history, instruction).vault + history.task.reward == history.vault
            &&& step(history, instruction).releases == history.releases + 1
        },
        step(history, instruction).vault <= history.vault,
{
}

/// A creation that the lifecycle lets through opens a history: the record
/// and the vault are afterwards what `opened` says, for a vault that held
/// what it held before.
pub proof fn lemma_create_opens(
    ctx: CreateTask,
    task_pda: Option<(Seq<u8>, u8)>,
    escrow_pda: Option<(Seq<u8>, u8)>,
    id: Seq<u8>,
    description_hash: Seq<u8>,
    required_capability: Seq<char>,
    reward: nat,
    deadline: int,
    now: int,
)
    requires
        create_rejection(ctx, task_pda, escrow_pda, required_capability, reward, deadline, now)
            is None,
    ensures
        create_refusal(required_capability, reward, deadline, now) is None,
        ({
            let start = opened(
                id,
                ctx.requester.key@,
                description_hash,
                required_capability,
                reward,
                deadline,
                now,
                ctx.escrow@.lamports,
            );
            &&& start.task == TaskView::created(
                id,
                ctx.requester.key@,
                description_hash,
                required_capability,
                reward,
                deadline,
                now,
            )
            &&& start.vault == ctx.escrow@.lamports + reward
            &&& in_balance(start, ctx.escrow@.lamports)
            &&& consistent(start.task)
        }),
{
}

/// An acceptance that the lifecycle lets through is one step of the history.
pub proof fn lemma_accept_is_step(
    ctx: AcceptTask,
    agent_pda: Option<(Seq<u8>, u8)>,
    now: int,
    history: EscrowHistory,
)
    requires
        history.task == ctx.task_account@,
        accept_rejection(ctx, agent_pda, now) is None,
    ensures
        step(history, Instruction::Accept { agent: ctx.agent_account@, provider: ctx.provider@, now })
            == (EscrowHistory { task: ctx.task_account@.accepted(ctx.provider@, now), ..history }),
{
}

/// A delivery that the lifecycle lets through is one step of the history.
pub proof fn lemma_deliver_is_step(
    ctx: DeliverTask,
    result_hash: Seq<u8>,
    now: int,
    history: EscrowHistory,
)
    requires
        history.task == ctx.task_account@,
        deliver_refusal(ctx.task_account@, ctx.provider@) is None,
    ensures
        step(history, Instruction::Deliver { provider: ctx.provider@, result_hash, now }) == (
        EscrowHistory { task: ctx.task_account@.delivered(result_hash, now), ..history }),
{
}

/// A completion that the lifecycle lets through is one step of the history:
/// the step releases what the instruction moves out of the vault.
pub proof fn lemma_complete_is_step(
    ctx: CompleteTask,
    agent_pda: Option<(Seq<u8>, u8)>,
    escrow_pda: Option<(Seq<u8>, u8)>,
    now: int,
    history: EscrowHistory,
)
    requires
        history.task == ctx.task_account@,
        history.vault == ctx.escrow@.lamports,
        complete_rejection(ctx, agent_pda, escrow_pda) is None,
    ensures
        step(
            history,
            Instruction::Complete { provider: ctx.provider.key@, requester: ctx.requester@, now },
        ) == (EscrowHistory {
            task: ctx.task_account@.completed(now),
            vault: (ctx.escrow@.lamports - ctx.task_account.reward) as nat,
            funded: history.funded,
            released: history.released + ctx.task_account@.reward,
            releases: history.releases + 1,
        }),
{
}

/// A cancellation that the lifecycle lets through is one step of the
/// history: the step releases what the instruction moves out of the vault.
pub proof fn lemma_cancel_is_step(
    ctx: CancelTask,
    escrow_pda: Option<(Seq<u8>, u8)>,
    history: EscrowHistory,
)
    requires
        history.task == ctx.task_account@,
        history.vault == ctx.escrow@.lamports,
        cancel_rejection(ctx, escrow_pda) is None,
    ensures
        step(history, Instruction::Cancel { requester: ctx.requester.key@ }) == (EscrowHistory {
            task: ctx.task_account@.cancelled(),
            vault: (ctx.escrow@.lamports - ctx.task_account.reward) as nat,
            funded: history.funded,
            released: history.released + ctx.task_account@.reward,
            releases: history.releases + 1,
        }),
{
}

/// A timeout that the lifecycle lets through is one step of the history: the
/// step releases what the instruction moves out of the vault.
pub proof fn lemma_timeout_is_step(
    ctx: TimeoutTask,
    agent_pda: Option<(Seq<u8>, u8)>,
    escrow_pda: Option<(Seq<u8>, u8)>,
    now: int,
    history: EscrowHistory,
)
    requires
        history.task == ctx.task_account@,
        history.vault == ctx.escrow@.lamports,
        timeout_rejection(ctx, agent_pda, escrow_pda, now) is None,
    ensures
        step(history, Instruction::Timeout { requester: ctx.requester.key@, now }) == (
        EscrowHistory {
            task: ctx.task_account@.timed_out(),
            vault: (ctx.escrow@.lamports - ctx.task_account.reward) as nat,
            funded: history.funded,
            released: history.released + ctx.task_account@.reward,
            releases: history.releases + 1,
        }),
{
}

} // verus!
