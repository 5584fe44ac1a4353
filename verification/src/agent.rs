//! The agent registry: who offers work, what they declare, and how they fared.
//!
//! An agent record is created once per owning key and stands at the address
//! derived from that key. Its owner edits what it declares; the task
//! lifecycle alone moves its reputation and its counters.

use crate::address::{agent_address, agent_address_of, check_seeds, derived_view, keys_equal, seeds_rejection, KeyBytes};
use crate::capability::{byte_len, text_len};
use crate::error::{ErrorCode, Rejection};
use vstd::prelude::*;

verus! {

/// The most bytes that a node id may hold.
pub const MAX_NODE_ID_LEN: usize = 64;

/// The most bytes that a capability list may hold.
pub const MAX_CAPABILITIES_LEN: usize = 256;

/// The reputation of an agent at registration.
pub const STARTING_REPUTATION: u64 = 100;

/// The highest reputation.
pub const MAX_REPUTATION: u64 = 1000;

/// What a completed task adds to the provider's reputation.
pub const COMPLETION_GAIN: u64 = 10;

/// What a task that timed out takes from the provider's reputation.
pub const FAILURE_PENALTY: u64 = 20;

/// The record of one agent.
#[derive(Clone, Debug, PartialEq, Eq)]
pub struct AgentState {
    /// The key that owns the record.
    pub authority: KeyBytes,
    /// The name of the agent's node, 64 bytes at most.
    pub node_id: String,
    /// The declared capability list, 256 bytes at most.
    pub capabilities: String,
    /// The fee that the agent quotes per task, in lamports.
    pub fee_per_task: u64,
    /// The reputation, from 0 to 1000.
    pub reputation: u64,
    /// Whether the agent takes tasks.
    pub is_active: bool,
    /// How many tasks the agent completed.
    pub tasks_completed: u64,
    /// How many of the agent's tasks timed out.
    pub tasks_failed: u64,
    /// When the agent registered.
    pub registered_at: i64,
}

/// What an agent record says, in unbounded numbers.
pub struct AgentView {
    /// The key that owns the record.
    pub authority: Seq<u8>,
    /// The name of the agent's node.
    pub node_id: Seq<char>,
    /// The declared capability list.
    pub capabilities: Seq<char>,
    /// The fee that the agent quotes per task.
    pub fee_per_task: nat,
    /// The reputation.
    pub reputation: nat,
    /// Whether the agent takes tasks.
    pub is_active: bool,
    /// How many tasks the agent completed.
    pub tasks_completed: nat,
    /// How many of the agent's tasks timed out.
    pub tasks_failed: nat,
    /// When the agent registered.
    pub registered_at: int,
}

impl View for AgentState {
    type V = AgentView;

    open spec fn view(&self) -> AgentView {
        AgentView {
            authority: self.authority@,
            node_id: self.node_id@,
            capabilities: self.capabilities@,
            fee_per_task: self.fee_per_task as nat,
            reputation: self.reputation as nat,
            is_active: self.is_active,
            tasks_completed: self.tasks_completed as nat,
            tasks_failed: self.tasks_failed as nat,
            registered_at: self.registered_at as int,
        }
    }
}

impl AgentView {
    /// The record holds what a registry may hold: both texts within their
    /// bounds and the reputation within its range.
    pub open spec fn wf(self) -> bool {
        &&& byte_len(self.node_id) <= MAX_NODE_ID_LEN
        &&& byte_len(self.capabilities) <= MAX_CAPABILITIES_LEN
        &&& self.reputation <= MAX_REPUTATION
    }

    /// The record of an agent that has just registered: the starting
    /// reputation, no task counted, active.
    pub open spec fn registered(
        authority: Seq<u8>,
        node_id: Seq<char>,
        capabilities: Seq<char>,
        fee_per_task: nat,
        now: int,
    ) -> AgentView {
        AgentView {
            authority,
            node_id,
            capabilities,
            fee_per_task,
            reputation: STARTING_REPUTATION as nat,
            is_active: true,
            tasks_completed: 0,
            tasks_failed: 0,
            registered_at: now,
        }
    }

    /// The record after its owner's edit: each field that the edit names is
    /// replaced, every other field stays.
    pub open spec fn updated(
        self,
        capabilities: Option<Seq<char>>,
        fee_per_task: Option<nat>,
        is_active: Option<bool>,
    ) -> AgentView {
        AgentView {
            capabilities: match capabilities {
                Some(text) => text,
                None => self.capabilities,
            },
            fee_per_task: match fee_per_task {
                Some(fee) => fee,
                None => self.fee_per_task,
            },
            is_active: match is_active {
                Some(active) => active,
                None => self.is_active,
            },
            ..self
        }
    }

    /// The record after one completed task: one more task counted, and the
    /// reputation ten higher, 1000 at most.
    pub open spec fn after_completion(self) -> AgentView {
        AgentView {
            tasks_completed: (self.tasks_completed + 1) as nat,
            reputation: if self.reputation + COMPLETION_GAIN >= MAX_REPUTATION {
                MAX_REPUTATION as nat
            } else {
                (self.reputation + COMPLETION_GAIN) as nat
            },
            ..self
        }
    }

    /// The record after one task that timed out: one more failure counted,
    /// and the reputation twenty lower, 0 at least.
    pub open spec fn after_failure(self) -> AgentView {
        AgentView {
            tasks_failed: (self.tasks_failed + 1) as nat,
            reputation: if self.reputation <= FAILURE_PENALTY {
                0
            } else {
                (self.reputation - FAILURE_PENALTY) as nat
            },
            ..self
        }
    }
}

/// What the end of a task means for its provider.
pub enum Outcome {
    /// The task was completed.
    Completion,
    /// The task timed out.
    Failure,
}

/// The record after one outcome.
pub open spec fn after_outcome(agent: AgentView, outcome: Outcome) -> AgentView {
    match outcome {
        Outcome::Completion => agent.after_completion(),
        Outcome::Failure => agent.after_failure(),
    }
}

/// The record after a run of outcomes, the first of them first.
pub open spec fn after_outcomes(agent: AgentView, outcomes: Seq<Outcome>) -> AgentView
    decreases outcomes.len(),
{
    if outcomes.len() == 0 {
        agent
    } else {
        after_outcome(after_outcomes(agent, outcomes.drop_last()), outcomes.last())
    }
}

/// The record after `count` completed tasks in a row.
pub open spec fn after_completions(agent: AgentView, count: nat) -> AgentView
    decreases count,
{
    if count == 0 {
        agent
    } else {
        after_completions(agent, (count - 1) as nat).after_completion()
    }
}

/// The record after `count` tasks that timed out in a row.
pub open spec fn after_failures(agent: AgentView, count: nat) -> AgentView
    decreases count,
{
    if count == 0 {
        agent
    } else {
        after_failures(agent, (count - 1) as nat).after_failure()
    }
}

/// Whatever run of completions and failures an agent goes through, its
/// reputation stays within 0 and 1000, and the record stays well formed.
/// Each outcome is counted once, and nothing else in the record moves.
pub proof fn lemma_reputation_stays_in_range(agent: AgentView, outcomes: Seq<Outcome>)
    requires
        agent.wf(),
    ensures
        after_outcomes(agent, outcomes).wf(),
        0 <= after_outcomes(agent, outcomes).reputation <= MAX_REPUTATION,
        after_outcomes(agent, outcomes).tasks_completed + after_outcomes(agent, outcomes).tasks_failed
            == agent.tasks_completed + agent.tasks_failed + outcomes.len(),
        after_outcomes(agent, outcomes).authority == agent.authority,
        after_outcomes(agent, outcomes).node_id == agent.node_id,
        after_outcomes(agent, outcomes).capabilities == agent.capabilities,
        after_outcomes(agent, outcomes).fee_per_task == agent.fee_per_task,
        after_outcomes(agent, outcomes).is_active == agent.is_active,
        after_outcomes(agent, outcomes).registered_at == agent.registered_at,
    decreases outcomes.len(),
{
    if outcomes.len() > 0 {
        lemma_reputation_stays_in_range(agent, outcomes.drop_last());
    }
}

/// Completions in a row raise the reputation by ten each until it reaches
/// 1000, where it stays.
pub proof fn lemma_completions_saturate(agent: AgentView, count: nat)
    requires
        agent.reputation <= MAX_REPUTATION,
    ensures
        after_completions(agent, count).reputation == if agent.reputation + COMPLETION_GAIN * count
            >= MAX_REPUTATION {
            MAX_REPUTATION as int
        } else {
            agent.reputation + COMPLETION_GAIN * count
        },
        after_completions(agent, count).tasks_completed == agent.tasks_completed + count,
    decreases count,
{
    if count > 0 {
        lemma_completions_saturate(agent, (count - 1) as nat);
    }
}

/// Failures in a row lower the reputation by twenty each until it reaches 0,
/// where it stays.
pub proof fn lemma_failures_saturate(agent: AgentView, count: nat)
    ensures
        after_failures(agent, count).reputation == if agent.reputation <= FAILURE_PENALTY * count {
            0
        } else {
            agent.reputation - FAILURE_PENALTY * count
        },
        after_failures(agent, count).tasks_failed == agent.tasks_failed + count,
    decreases count,
{
    if count > 0 {
        lemma_failures_saturate(agent, (count - 1) as nat);
    }
}

/// The text that an edit names, if it names one.
pub open spec fn named_text(text: Option<String>) -> Option<Seq<char>> {
    match text {
        Some(text) => Some(text@),
        None => None,
    }
}

/// The amount that an edit names, if it names one.
pub open spec fn named_amount(amount: Option<u64>) -> Option<nat> {
    match amount {
        Some(amount) => Some(amount as nat),
        None => None,
    }
}

impl AgentState {
    /// The bytes that a stored agent record takes at most.
    pub const MAX_SIZE: usize = 8 + 32 + (4 + 64) + (4 + 256) + 8 + 8 + 1 + 8 + 8 + 8;

    /// Counts one completed task and raises the reputation by ten, to 1000
    /// at most.
    pub fn apply_completion(&mut self)
        requires
            old(self).tasks_completed < u64::MAX,
        ensures
            final(self)@ == old(self)@.after_completion(),
            final(self)@.reputation <= MAX_REPUTATION,
    {
        self.tasks_completed = self.tasks_completed + 1;
        if self.reputation >= MAX_REPUTATION - COMPLETION_GAIN {
            self.reputation = MAX_REPUTATION;
        } else {
            self.reputation = self.reputation + COMPLETION_GAIN;
        }
    }

    /// Counts one task that timed out and lowers the reputation by twenty,
    /// to 0 at least.
    pub fn apply_failure(&mut self)
        requires
            old(self).tasks_failed < u64::MAX,
        ensures
            final(self)@ == old(self)@.after_failure(),
            final(self)@.reputation <= old(self)@.reputation,
    {
        self.tasks_failed = self.tasks_failed + 1;
        if self.reputation <= FAILURE_PENALTY {
            self.reputation = 0;
        } else {
            self.reputation = self.reputation - FAILURE_PENALTY;
        }
    }
}

impl Default for AgentState {
    /// An empty record: no owner, no text, nothing counted.
    fn default() -> (agent: AgentState)
        ensures
            agent.authority@ == crate::address::unset_key(),
            agent.node_id@ == Seq::<char>::empty(),
            agent.capabilities@ == Seq::<char>::empty(),
            agent.fee_per_task == 0,
            agent.reputation == 0,
            !agent.is_active,
            agent.tasks_completed == 0,
            agent.tasks_failed == 0,
            agent.registered_at == 0,
    {
        AgentState {
            authority: crate::address::zero_key(),
            node_id: String::new(),
            capabilities: String::new(),
            fee_per_task: 0,
            reputation: 0,
            is_active: false,
            tasks_completed: 0,
            tasks_failed: 0,
            registered_at: 0,
        }
    }
}

/// What registering an agent touches.
#[derive(Clone, Debug, PartialEq, Eq)]
pub struct RegisterAgent {
    /// The id of the program under which addresses are derived.
    pub program_id: KeyBytes,
    /// The address at which the new record is presented.
    pub agent_address: KeyBytes,
    /// The record at that address: none before the registration.
    pub agent_account: Option<AgentState>,
    /// The key that signed: the owner of the new record.
    pub authority: KeyBytes,
}

/// What editing an agent touches.
#[derive(Clone, Debug, PartialEq, Eq)]
pub struct UpdateAgent {
    /// The id of the program under which addresses are derived.
    pub program_id: KeyBytes,
    /// The address at which the record is presented.
    pub agent_address: KeyBytes,
    /// The record to edit.
    pub agent_account: AgentState,
    /// The key that signed.
    pub authority: KeyBytes,
}

/// Why a registration is rejected, the first that applies: the record is not
/// presented at the address `derived` for its owner; a record stands there
/// already; the node id or the capability list is too long.
pub open spec fn register_rejection(
    ctx: RegisterAgent,
    derived: Option<(Seq<u8>, u8)>,
    node_id: Seq<char>,
    capabilities: Seq<char>,
) -> Option<Rejection> {
    match seeds_rejection(derived, ctx.agent_address@) {
        Some(rejection) => Some(rejection),
        None => if ctx.agent_account is Some {
            Some(Rejection::AlreadyInitialized)
        } else if byte_len(node_id) > MAX_NODE_ID_LEN {
            Some(Rejection::Program(ErrorCode::NodeIdTooLong))
        } else if byte_len(capabilities) > MAX_CAPABILITIES_LEN {
            Some(Rejection::Program(ErrorCode::CapabilitiesTooLong))
        } else {
            None
        },
    }
}

/// Why an edit is rejected, the first that applies: the record is not
/// presented at the address `derived` for the key that signed; the record
/// belongs to another key; the new capability list is too long.
pub open spec fn update_rejection(
    ctx: UpdateAgent,
    derived: Option<(Seq<u8>, u8)>,
    capabilities: Option<Seq<char>>,
) -> Option<Rejection> {
    match seeds_rejection(derived, ctx.agent_address@) {
        Some(rejection) => Some(rejection),
        None => if ctx.agent_account.authority@ != ctx.authority@ {
            Some(Rejection::OwnerMismatch)
        } else if capabilities matches Some(text) && byte_len(text) > MAX_CAPABILITIES_LEN {
            Some(Rejection::Program(ErrorCode::CapabilitiesTooLong))
        } else {
            None
        },
    }
}

/// Registers an agent, given the address `derived` for its owner's key.
///
/// On success the record holds the owner's key, the two texts and the fee as
/// given, the starting reputation, no task counted, and is active. On a
/// rejection nothing changes.
pub fn register_agent_at(
    ctx: &mut RegisterAgent,
    derived: &Option<(KeyBytes, u8)>,
    node_id: String,
    capabilities: String,
    fee_per_task: u64,
    now: i64,
) -> (outcome: Result<(), Rejection>)
    ensures
        final(ctx).program_id == old(ctx).program_id,
        final(ctx).agent_address == old(ctx).agent_address,
        final(ctx).authority == old(ctx).authority,
        match register_rejection(*old(ctx), derived_view(*derived), node_id@, capabilities@) {
            Some(rejection) => outcome == Err::<(), Rejection>(rejection) && *final(ctx) == *old(ctx),
            None => {
                &&& outcome == Ok::<(), Rejection>(())
                &&& final(ctx).agent_account matches Some(agent)
                &&& agent@ == AgentView::registered(
                    old(ctx).authority@,
                    node_id@,
                    capabilities@,
                    fee_per_task as nat,
                    now as int,
                )
                &&& agent@.wf()
            },
        },
{
    match check_seeds(derived, &ctx.agent_address) {
        Err(rejection) => {
            return Err(rejection);
        },
        Ok(()) => {},
    }
    if ctx.agent_account.is_some() {
        return Err(Rejection::AlreadyInitialized);
    }
    if text_len(node_id.as_str()) > MAX_NODE_ID_LEN {
        return Err(Rejection::Program(ErrorCode::NodeIdTooLong));
    }
    if text_len(capabilities.as_str()) > MAX_CAPABILITIES_LEN {
        return Err(Rejection::Program(ErrorCode::CapabilitiesTooLong));
    }
    ctx.agent_account = Some(
        AgentState {
            authority: ctx.authority,
            node_id,
            capabilities,
            fee_per_task,
            reputation: STARTING_REPUTATION,
            is_active: true,
            tasks_completed: 0,
            tasks_failed: 0,
            registered_at: now,
        },
    );
    Ok(())
}

/// Registers an agent under the key that signed: one record per owner, at the
/// address derived from the owner's key.
///
/// Rejected where the record is presented at another address, where the
/// owner has a record already, and where the node id exceeds 64 bytes or the
/// capability list 256 bytes.
pub fn register_agent(
    ctx: &mut RegisterAgent,
    node_id: String,
    capabilities: String,
    fee_per_task: u64,
    now: i64,
) -> (outcome: Result<(), Rejection>)
    ensures
        final(ctx).program_id == old(ctx).program_id,
        final(ctx).agent_address == old(ctx).agent_address,
        final(ctx).authority == old(ctx).authority,
        match register_rejection(
            *old(ctx),
            agent_address_of(old(ctx).authority@, old(ctx).program_id@),
            node_id@,
            capabilities@,
        ) {
            Some(rejection) => outcome == Err::<(), Rejection>(rejection) && *final(ctx) == *old(ctx),
            None => {
                &&& outcome == Ok::<(), Rejection>(())
                &&& final(ctx).agent_account matches Some(agent)
                &&& agent@ == AgentView::registered(
                    old(ctx).authority@,
                    node_id@,
                    capabilities@,
                    fee_per_task as nat,
                    now as int,
                )
                &&& agent@.wf()
            },
        },
{
    let derived = agent_address(&ctx.authority, &ctx.program_id);
    register_agent_at(ctx, &derived, node_id, capabilities, fee_per_task, now)
}

/// Edits an agent's record, given the address `derived` for the key that
/// signed.
///
/// On success each of the capability list, the fee and the activity flag that
/// the edit names is replaced; every other field stays. On a rejection
/// nothing changes.
pub fn update_agent_at(
    ctx: &mut UpdateAgent,
    derived: &Option<(KeyBytes, u8)>,
    capabilities: Option<String>,
    fee_per_task: Option<u64>,
    is_active: Option<bool>,
) -> (outcome: Result<(), Rejection>)
    ensures
        final(ctx).program_id == old(ctx).program_id,
        final(ctx).agent_address == old(ctx).agent_address,
        final(ctx).authority == old(ctx).authority,
        match update_rejection(*old(ctx), derived_view(*derived), named_text(capabilities)) {
            Some(rejection) => outcome == Err::<(), Rejection>(rejection) && *final(ctx) == *old(ctx),
            None => {
                &&& outcome == Ok::<(), Rejection>(())
                &&& final(ctx).agent_account@ == old(ctx).agent_account@.updated(
                    named_text(capabilities),
                    named_amount(fee_per_task),
                    is_active,
                )
                &&& old(ctx).agent_account@.wf() ==> final(ctx).agent_account@.wf()
            },
        },
{
    match check_seeds(derived, &ctx.agent_address) {
        Err(rejection) => {
            return Err(rejection);
        },
        Ok(()) => {},
    }
    if !keys_equal(&ctx.agent_account.authority, &ctx.authority) {
        return Err(Rejection::OwnerMismatch);
    }
    if let Some(text) = capabilities {
        if text_len(text.as_str()) > MAX_CAPABILITIES_LEN {
            return Err(Rejection::Program(ErrorCode::CapabilitiesTooLong));
        }
        ctx.agent_account.capabilities = text;
    }
    if let Some(fee) = fee_per_task {
        ctx.agent_account.fee_per_task = fee;
    }
    if let Some(active) = is_active {
        ctx.agent_account.is_active = active;
    }
    Ok(())
}

/// Edits an agent's record on behalf of its owner.
///
/// Rejected where the record is not the one derived for the key that signed,
/// where it belongs to another key, and where a new capability list exceeds
/// 256 bytes.
pub fn update_agent(
    ctx: &mut UpdateAgent,
    capabilities: Option<String>,
    fee_per_task: Option<u64>,
    is_active: Option<bool>,
) -> (outcome: Result<(), Rejection>)
    ensures
        final(ctx).program_id == old(ctx).program_id,
        final(ctx).agent_address == old(ctx).agent_address,
        final(ctx).authority == old(ctx).authority,
        match update_rejection(
            *old(ctx),
            agent_address_of(old(ctx).authority@, old(ctx).program_id@),
            named_text(capabilities),
        ) {
            Some(rejection) => outcome == Err::<(), Rejection>(rejection) && *final(ctx) == *old(ctx),
            None => {
                &&& outcome == Ok::<(), Rejection>(())
                &&& final(ctx).agent_account@ == old(ctx).agent_account@.updated(
                    named_text(capabilities),
                    named_amount(fee_per_task),
                    is_active,
                )
                &&& old(ctx).agent_account@.wf() ==> final(ctx).agent_account@.wf()
            },
        },
{
    let derived = agent_address(&ctx.authority, &ctx.program_id);
    update_agent_at(ctx, &derived, capabilities, fee_per_task, is_active)
}

} // verus!
