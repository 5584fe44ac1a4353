use agent_protocol::address::agent_address;
use agent_protocol::agent::{
    register_agent, register_agent_at, update_agent, update_agent_at, AgentState, RegisterAgent,
    UpdateAgent, COMPLETION_GAIN, FAILURE_PENALTY, MAX_CAPABILITIES_LEN, MAX_NODE_ID_LEN,
    MAX_REPUTATION, STARTING_REPUTATION,
};
use agent_protocol::error::{ErrorCode, Rejection};

const PROGRAM: [u8; 32] = [7u8; 32];
const OWNER: [u8; 32] = [1u8; 32];
const NOW: i64 = 1_700_000_000;

fn registration(owner: [u8; 32]) -> RegisterAgent {
    RegisterAgent {
        program_id: PROGRAM,
        agent_address: agent_address(&owner, &PROGRAM).unwrap().0,
        agent_account: None,
        authority: owner,
    }
}

fn registered(owner: [u8; 32], capabilities: &str) -> AgentState {
    let mut ctx = registration(owner);
    assert_eq!(
        register_agent(&mut ctx, "node".to_string(), capabilities.to_string(), 5, NOW),
        Ok(())
    );
    ctx.agent_account.unwrap()
}

fn edit(owner: [u8; 32], agent: AgentState) -> UpdateAgent {
    UpdateAgent {
        program_id: PROGRAM,
        agent_address: agent_address(&owner, &PROGRAM).unwrap().0,
        agent_account: agent,
        authority: owner,
    }
}

#[test]
fn a_new_agent_starts_active_with_reputation_100() {
    let mut ctx = registration(OWNER);
    let outcome = register_agent(
        &mut ctx,
        "node-1".to_string(),
        "[\"coding\",\"browser\"]".to_string(),
        2500,
        NOW,
    );
    assert_eq!(outcome, Ok(()));
    let agent = ctx.agent_account.unwrap();
    assert_eq!(
        agent,
        AgentState {
            authority: OWNER,
            node_id: "node-1".to_string(),
            capabilities: "[\"coding\",\"browser\"]".to_string(),
            fee_per_task: 2500,
            reputation: 100,
            is_active: true,
            tasks_completed: 0,
            tasks_failed: 0,
            registered_at: NOW,
        }
    );
    assert_eq!(ctx.authority, OWNER);
    assert_eq!(ctx.program_id, PROGRAM);
}

#[test]
fn the_limits_of_the_registry_are_the_stated_ones() {
    assert_eq!(MAX_NODE_ID_LEN, 64);
    assert_eq!(MAX_CAPABILITIES_LEN, 256);
    assert_eq!(STARTING_REPUTATION, 100);
    assert_eq!(MAX_REPUTATION, 1000);
    assert_eq!(COMPLETION_GAIN, 10);
    assert_eq!(FAILURE_PENALTY, 20);
    assert_eq!(AgentState::MAX_SIZE, 409);
}

#[test]
fn an_owner_registers_once() {
    let mut ctx = registration(OWNER);
    assert_eq!(register_agent(&mut ctx, "a".to_string(), "[]".to_string(), 1, NOW), Ok(()));
    let before = ctx.clone();
    assert_eq!(
        register_agent(&mut ctx, "b".to_string(), "[\"x\"]".to_string(), 2, NOW + 1),
        Err(Rejection::AlreadyInitialized)
    );
    assert_eq!(ctx, before);
}

#[test]
fn a_node_id_of_64_bytes_is_taken_and_one_of_65_is_not() {
    let mut ctx = registration(OWNER);
    assert_eq!(
        register_agent(&mut ctx, "n".repeat(65), "[]".to_string(), 1, NOW),
        Err(Rejection::Program(ErrorCode::NodeIdTooLong))
    );
    assert_eq!(ctx, registration(OWNER));
    assert_eq!(register_agent(&mut ctx, "n".repeat(64), "[]".to_string(), 1, NOW), Ok(()));
    assert_eq!(ctx.agent_account.unwrap().node_id.len(), 64);
}

#[test]
fn a_node_id_is_measured_in_bytes() {
    let mut ctx = registration(OWNER);
    assert_eq!(
        register_agent(&mut ctx, "é".repeat(33), "[]".to_string(), 1, NOW),
        Err(Rejection::Program(ErrorCode::NodeIdTooLong))
    );
    assert_eq!(register_agent(&mut ctx, "é".repeat(32), "[]".to_string(), 1, NOW), Ok(()));
}

#[test]
fn a_capability_list_of_256_bytes_is_taken_and_one_of_257_is_not() {
    let mut ctx = registration(OWNER);
    assert_eq!(
        register_agent(&mut ctx, "n".to_string(), "c".repeat(257), 1, NOW),
        Err(Rejection::Program(ErrorCode::CapabilitiesTooLong))
    );
    assert_eq!(ctx.agent_account, None);
    assert_eq!(register_agent(&mut ctx, "n".to_string(), "c".repeat(256), 1, NOW), Ok(()));
}

#[test]
fn the_node_id_is_checked_before_the_capability_list() {
    let mut ctx = registration(OWNER);
    assert_eq!(
        register_agent(&mut ctx, "n".repeat(65), "c".repeat(257), 1, NOW),
        Err(Rejection::Program(ErrorCode::NodeIdTooLong))
    );
}

#[test]
fn a_record_presented_at_another_address_is_not_registered() {
    let mut ctx = registration(OWNER);
    ctx.agent_address = agent_address(&[2u8; 32], &PROGRAM).unwrap().0;
    let before = ctx.clone();
    assert_eq!(
        register_agent(&mut ctx, "n".to_string(), "[]".to_string(), 1, NOW),
        Err(Rejection::SeedsMismatch)
    );
    assert_eq!(ctx, before);
}

#[test]
fn without_a_derived_address_nothing_is_registered() {
    let mut ctx = registration(OWNER);
    assert_eq!(
        register_agent_at(&mut ctx, &None, "n".to_string(), "[]".to_string(), 1, NOW),
        Err(Rejection::NoProgramAddress)
    );
    assert_eq!(ctx, registration(OWNER));
    let derived = Some((ctx.agent_address, 255));
    assert_eq!(
        register_agent_at(&mut ctx, &derived, "n".to_string(), "[]".to_string(), 1, NOW),
        Ok(())
    );
}

#[test]
fn an_edit_replaces_the_named_fields_only() {
    let agent = registered(OWNER, "[\"coding\"]");
    let mut ctx = edit(OWNER, agent.clone());
    assert_eq!(update_agent(&mut ctx, None, None, None), Ok(()));
    assert_eq!(ctx.agent_account, agent);

    assert_eq!(update_agent(&mut ctx, None, Some(77), None), Ok(()));
    assert_eq!(ctx.agent_account, AgentState { fee_per_task: 77, ..agent.clone() });

    assert_eq!(update_agent(&mut ctx, None, None, Some(false)), Ok(()));
    assert_eq!(
        ctx.agent_account,
        AgentState { fee_per_task: 77, is_active: false, ..agent.clone() }
    );

    assert_eq!(
        update_agent(&mut ctx, Some("[\"browser\"]".to_string()), Some(0), Some(true)),
        Ok(())
    );
    assert_eq!(
        ctx.agent_account,
        AgentState {
            capabilities: "[\"browser\"]".to_string(),
            fee_per_task: 0,
            is_active: true,
            ..agent
        }
    );
}

#[test]
fn an_edit_with_too_long_a_list_changes_nothing() {
    let agent = registered(OWNER, "[\"coding\"]");
    let mut ctx = edit(OWNER, agent.clone());
    assert_eq!(
        update_agent(&mut ctx, Some("c".repeat(257)), Some(9), Some(false)),
        Err(Rejection::Program(ErrorCode::CapabilitiesTooLong))
    );
    assert_eq!(ctx.agent_account, agent);
    assert_eq!(update_agent(&mut ctx, Some("c".repeat(256)), None, None), Ok(()));
    assert_eq!(ctx.agent_account.capabilities.len(), 256);
}

#[test]
fn only_the_owner_edits_a_record() {
    let agent = registered(OWNER, "[\"coding\"]");
    let stranger = [2u8; 32];

    let mut at_own_address = edit(OWNER, agent.clone());
    at_own_address.authority = stranger;
    assert_eq!(
        update_agent(&mut at_own_address, None, Some(1), None),
        Err(Rejection::SeedsMismatch)
    );
    assert_eq!(at_own_address.agent_account, agent);

    let mut at_strangers_address = edit(stranger, agent.clone());
    assert_eq!(
        update_agent(&mut at_strangers_address, None, Some(1), None),
        Err(Rejection::OwnerMismatch)
    );
    assert_eq!(at_strangers_address.agent_account, agent);

    let mut without_address = edit(OWNER, agent.clone());
    assert_eq!(
        update_agent_at(&mut without_address, &None, None, Some(1), None),
        Err(Rejection::NoProgramAddress)
    );
    assert_eq!(without_address.agent_account, agent);
}

#[test]
fn a_completion_adds_ten_to_the_reputation() {
    let mut agent = registered(OWNER, "[]");
    agent.apply_completion();
    assert_eq!(agent.reputation, 110);
    assert_eq!(agent.tasks_completed, 1);
    assert_eq!(agent.tasks_failed, 0);
}

#[test]
fn a_failure_takes_twenty_from_the_reputation() {
    let mut agent = registered(OWNER, "[]");
    agent.apply_failure();
    assert_eq!(agent.reputation, 80);
    assert_eq!(agent.tasks_failed, 1);
    assert_eq!(agent.tasks_completed, 0);
}

#[test]
fn repeated_completions_stop_at_1000() {
    let mut agent = registered(OWNER, "[]");
    for done in 1..=89u64 {
        agent.apply_completion();
        assert_eq!(agent.reputation, 100 + 10 * done);
    }
    assert_eq!(agent.reputation, 990);
    for _ in 0..50 {
        agent.apply_completion();
        assert_eq!(agent.reputation, 1000);
    }
    assert_eq!(agent.tasks_completed, 139);
    agent.reputation = 995;
    agent.apply_completion();
    assert_eq!(agent.reputation, 1000);
}

#[test]
fn repeated_failures_stop_at_0() {
    let mut agent = registered(OWNER, "[]");
    for failed in 1..=5u64 {
        agent.apply_failure();
        assert_eq!(agent.reputation, 100 - 20 * failed);
    }
    assert_eq!(agent.reputation, 0);
    for _ in 0..10 {
        agent.apply_failure();
        assert_eq!(agent.reputation, 0);
    }
    assert_eq!(agent.tasks_failed, 15);
    agent.reputation = 10;
    agent.apply_failure();
    assert_eq!(agent.reputation, 0);
    agent.reputation = 21;
    agent.apply_failure();
    assert_eq!(agent.reputation, 1);
}

#[test]
fn any_run_of_outcomes_keeps_the_reputation_in_range() {
    let mut agent = registered(OWNER, "[]");
    let mut pattern: u32 = 0x9e37_79b9;
    for _ in 0..2000 {
        pattern = pattern.wrapping_mul(1_664_525).wrapping_add(1_013_904_223);
        if pattern >> 31 == 0 {
            agent.apply_failure();
        } else {
            agent.apply_completion();
            agent.apply_completion();
            agent.apply_completion();
        }
        assert!(agent.reputation <= 1000);
    }
    assert_eq!(agent.authority, OWNER);
    assert!(agent.is_active);
}

#[test]
fn an_empty_record_holds_nothing() {
    let agent = AgentState::default();
    assert_eq!(agent.authority, [0u8; 32]);
    assert_eq!(agent.node_id, "");
    assert_eq!(agent.capabilities, "");
    assert_eq!(agent.reputation, 0);
    assert!(!agent.is_active);
    assert_eq!(agent.tasks_completed + agent.tasks_failed + agent.fee_per_task, 0);
    assert_eq!(agent.registered_at, 0);
}
