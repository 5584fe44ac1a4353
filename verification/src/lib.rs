//! An escrowed task marketplace: agents declare capabilities, requesters fund
//! tasks into a vault, and the task lifecycle decides when the vault pays out.
//!
//! The instructions work on plain values: keys and addresses as 32 bytes,
//! balances as numbers, records as structs. Whoever runs them reads these
//! values from a ledger and stores what an instruction left.

pub mod address;
pub mod agent;
pub mod badge;
pub mod capability;
pub mod error;
pub mod ledger;
pub mod lifecycle;
pub mod task;
pub mod vault;

pub use crate::address::KeyBytes;
pub use crate::agent::{register_agent, update_agent, AgentState, RegisterAgent, UpdateAgent};
pub use crate::badge::{mint_agent_badge, MintAgentBadge};
pub use crate::capability::has_capability;
pub use crate::error::{ErrorCode, Rejection};
pub use crate::lifecycle::{
    accept_task, cancel_task, complete_task, create_task, deliver_task, timeout_task, AcceptTask,
    CancelTask, CompleteTask, CreateTask, DeliverTask, TimeoutTask,
};
pub use crate::task::{TaskAccount, TaskStatus};
pub use crate::vault::{EscrowVault, Wallet};
