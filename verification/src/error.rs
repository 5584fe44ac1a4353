//! The conditions under which the protocol rejects an instruction.
//!
//! Every rejection leaves the records and balances as they were.

use vstd::prelude::*;

verus! {

/// The protocol's own rejections, in the order of their numbers.
#[derive(Clone, Copy, Debug, PartialEq, Eq, Structural)]
pub enum ErrorCode {
    /// The node id is longer than 64 bytes.
    NodeIdTooLong,
    /// The capability list is longer than 256 bytes.
    CapabilitiesTooLong,
    /// The required capability is longer than 64 bytes.
    CapabilityTooLong,
    /// The reward is zero.
    InvalidReward,
    /// The deadline is not after the present.
    InvalidDeadline,
    /// The task is not in the status that the instruction starts from.
    InvalidTaskStatus,
    /// The agent is not active.
    AgentNotActive,
    /// The deadline has been reached.
    TaskExpired,
    /// The caller is not the provider of the task.
    NotTaskProvider,
    /// The caller is not the requester of the task.
    NotTaskRequester,
    /// The deadline has not passed yet.
    DeadlineNotReached,
    /// The agent does not declare the required capability.
    CapabilityMismatch,
    /// The badge name is longer than 64 bytes.
    BadgeNameTooLong,
    /// The badge symbol is longer than 16 bytes.
    BadgeSymbolTooLong,
    /// The badge reference is longer than 200 bytes.
    BadgeUriTooLong,
}

/// The number of the first of the protocol's own rejections.
pub const ERROR_CODE_OFFSET: u32 = 6000;

impl ErrorCode {
    /// The place of the rejection in the list, from zero.
    pub open spec fn ordinal(self) -> nat {
        match self {
            ErrorCode::NodeIdTooLong => 0,
            ErrorCode::CapabilitiesTooLong => 1,
            ErrorCode::CapabilityTooLong => 2,
            ErrorCode::InvalidReward => 3,
            ErrorCode::InvalidDeadline => 4,
            ErrorCode::InvalidTaskStatus => 5,
            ErrorCode::AgentNotActive => 6,
            ErrorCode::TaskExpired => 7,
            ErrorCode::NotTaskProvider => 8,
            ErrorCode::NotTaskRequester => 9,
            ErrorCode::DeadlineNotReached => 10,
            ErrorCode::CapabilityMismatch => 11,
            ErrorCode::BadgeNameTooLong => 12,
            ErrorCode::BadgeSymbolTooLong => 13,
            ErrorCode::BadgeUriTooLong => 14,
        }
    }

    /// The words that describe the rejection.
    pub open spec fn description(self) -> Seq<char> {
        match self {
            ErrorCode::NodeIdTooLong => "Node ID too long (max 64 chars)"@,
            ErrorCode::CapabilitiesTooLong => "Capabilities string too long (max 256 chars)"@,
            ErrorCode::CapabilityTooLong => "Capability string too long (max 64 chars)"@,
            ErrorCode::InvalidReward => "Invalid reward amount"@,
            ErrorCode::InvalidDeadline => "Invalid deadline"@,
            ErrorCode::InvalidTaskStatus => "Invalid task status for this operation"@,
            ErrorCode::AgentNotActive => "Agent is not active"@,
            ErrorCode::TaskExpired => "Task has expired"@,
            ErrorCode::NotTaskProvider => "Not the task provider"@,
            ErrorCode::NotTaskRequester => "Not the task requester"@,
            ErrorCode::DeadlineNotReached => "Deadline has not been reached yet"@,
            ErrorCode::CapabilityMismatch => "Agent does not have required capability"@,
            ErrorCode::BadgeNameTooLong => "Badge name too long (max 64 chars)"@,
            ErrorCode::BadgeSymbolTooLong => "Badge symbol too long (max 16 chars)"@,
            ErrorCode::BadgeUriTooLong => "Badge URI too long (max 200 chars)"@,
        }
    }

    /// The number under which the rejection is reported: the offset of the
    /// protocol's own rejections plus its place in the list.
    pub fn code(&self) -> (number: u32)
        ensures
            number == ERROR_CODE_OFFSET + self.ordinal(),
    {
        let place: u32 = match self {
            ErrorCode::NodeIdTooLong => 0,
            ErrorCode::CapabilitiesTooLong => 1,
            ErrorCode::CapabilityTooLong => 2,
            ErrorCode::InvalidReward => 3,
            ErrorCode::InvalidDeadline => 4,
            ErrorCode::InvalidTaskStatus => 5,
            ErrorCode::AgentNotActive => 6,
            ErrorCode::TaskExpired => 7,
            ErrorCode::NotTaskProvider => 8,
            ErrorCode::NotTaskRequester => 9,
            ErrorCode::DeadlineNotReached => 10,
            ErrorCode::CapabilityMismatch => 11,
            ErrorCode::BadgeNameTooLong => 12,
            ErrorCode::BadgeSymbolTooLong => 13,
            ErrorCode::BadgeUriTooLong => 14,
        };
        ERROR_CODE_OFFSET + place
    }

    /// The words that describe the rejection.
    pub fn message(&self) -> (words: String)
        ensures
            words@ == self.description(),
    {
        let words: &str = match self {
            ErrorCode::NodeIdTooLong => "Node ID too long (max 64 chars)",
            ErrorCode::CapabilitiesTooLong => "Capabilities string too long (max 256 chars)",
            ErrorCode::CapabilityTooLong => "Capability string too long (max 64 chars)",
            ErrorCode::InvalidReward => "Invalid reward amount",
            ErrorCode::InvalidDeadline => "Invalid deadline",
            ErrorCode::InvalidTaskStatus => "Invalid task status for this operation",
            ErrorCode::AgentNotActive => "Agent is not active",
            ErrorCode::TaskExpired => "Task has expired",
            ErrorCode::NotTaskProvider => "Not the task provider",
            ErrorCode::NotTaskRequester => "Not the task requester",
            ErrorCode::DeadlineNotReached => "Deadline has not been reached yet",
            ErrorCode::CapabilityMismatch => "Agent does not have required capability",
            ErrorCode::BadgeNameTooLong => "Badge name too long (max 64 chars)",
            ErrorCode::BadgeSymbolTooLong => "Badge symbol too long (max 16 chars)",
            ErrorCode::BadgeUriTooLong => "Badge URI too long (max 200 chars)",
        };
        words.to_owned()
    }
}

/// Why an instruction was rejected: by one of the protocol's own rules, or
/// because a record or a balance was not what the instruction needs.
#[derive(Clone, Copy, Debug, PartialEq, Eq, Structural)]
pub enum Rejection {
    /// One of the protocol's own rules.
    Program(ErrorCode),
    /// A record or a vault does not stand at the address derived for it.
    SeedsMismatch,
    /// The seeds derive no address under the program.
    NoProgramAddress,
    /// The record does not belong to the party that signed.
    OwnerMismatch,
    /// A record already stands where a new one was to be created.
    AlreadyInitialized,
    /// The paying balance holds less than the amount to move.
    InsufficientFunds,
    /// The receiving balance cannot hold the amount to move.
    BalanceOverflow,
}

/// The first of two rejections that applies.
pub open spec fn first_of(first: Option<Rejection>, second: Option<Rejection>) -> Option<Rejection> {
    if first is Some {
        first
    } else {
        second
    }
}

/// A refusal by one of the protocol's own rules, as a rejection.
pub open spec fn by_rule(refusal: Option<ErrorCode>) -> Option<Rejection> {
    match refusal {
        Some(code) => Some(Rejection::Program(code)),
        None => None,
    }
}

} // verus!
