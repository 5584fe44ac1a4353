use agent_protocol::address::{agent_address, badge_address};
use agent_protocol::agent::{register_agent, AgentState, RegisterAgent};
use agent_protocol::badge::{
    badge_metadata_len, mint_agent_badge, mint_agent_badge_at, rent_shortfall, BadgeHolding,
    BadgeMint, MintAgentBadge, MAX_BADGE_NAME_LEN, MAX_BADGE_SYMBOL_LEN, MAX_BADGE_URI_LEN,
    METADATA_FIXED_LEN,
};
use agent_protocol::error::{ErrorCode, Rejection};
use agent_protocol::vault::Wallet;

const PROGRAM: [u8; 32] = [7u8; 32];
const OWNER: [u8; 32] = [1u8; 32];

fn agent(owner: [u8; 32]) -> AgentState {
    let mut ctx = RegisterAgent {
        program_id: PROGRAM,
        agent_address: agent_address(&owner, &PROGRAM).unwrap().0,
        agent_account: None,
        authority: owner,
    };
    assert_eq!(register_agent(&mut ctx, "node".to_string(), "[]".to_string(), 0, 0), Ok(()));
    ctx.agent_account.unwrap()
}

fn minting(lamports: u64) -> MintAgentBadge {
    MintAgentBadge {
        program_id: PROGRAM,
        agent_address: agent_address(&OWNER, &PROGRAM).unwrap().0,
        agent_account: agent(OWNER),
        badge_address: badge_address(&OWNER, &PROGRAM).unwrap().0,
        badge_mint: None,
        token_account: None,
        authority: Wallet { key: OWNER, lamports },
    }
}

fn mint(ctx: &mut MintAgentBadge, held: u64, needed: u64) -> Result<(), Rejection> {
    mint_agent_badge(
        ctx,
        "Agent One".to_string(),
        "AGT".to_string(),
        "https://example.org/agent-one.json".to_string(),
        held,
        needed,
    )
}

#[test]
fn a_badge_is_one_unit_that_nobody_can_mint_again() {
    let mut ctx = minting(10_000);
    assert_eq!(mint(&mut ctx, 1_500, 4_000), Ok(()));
    assert_eq!(
        ctx.badge_mint,
        Some(BadgeMint {
            lamports: 4_000,
            decimals: 0,
            supply: 1,
            mint_authority: None,
            update_authority: OWNER,
            name: "Agent One".to_string(),
            symbol: "AGT".to_string(),
            uri: "https://example.org/agent-one.json".to_string(),
        })
    );
    assert_eq!(
        ctx.token_account,
        Some(BadgeHolding { owner: OWNER, mint: badge_address(&OWNER, &PROGRAM).unwrap().0, amount: 1 })
    );
    assert_eq!(ctx.authority.lamports, 10_000 - 2_500);
    assert_eq!(ctx.agent_account, agent(OWNER));

    let minted = ctx.clone();
    assert_eq!(mint(&mut ctx, 1_500, 4_000), Err(Rejection::AlreadyInitialized));
    assert_eq!(ctx, minted);
}

#[test]
fn a_mint_that_holds_enough_is_not_topped_up() {
    let mut ctx = minting(10_000);
    assert_eq!(mint(&mut ctx, 4_000, 4_000), Ok(()));
    assert_eq!(ctx.authority.lamports, 10_000);
    assert_eq!(ctx.badge_mint.unwrap().lamports, 4_000);

    let mut ctx = minting(0);
    assert_eq!(mint(&mut ctx, 9_000, 4_000), Ok(()));
    assert_eq!(ctx.authority.lamports, 0);
    assert_eq!(ctx.badge_mint.unwrap().lamports, 9_000);
}

#[test]
fn what_a_mint_lacks_is_the_difference_or_nothing() {
    assert_eq!(rent_shortfall(4_000, 1_500), 2_500);
    assert_eq!(rent_shortfall(4_000, 4_000), 0);
    assert_eq!(rent_shortfall(4_000, 4_001), 0);
    assert_eq!(rent_shortfall(u64::MAX, 0), u64::MAX);
    assert_eq!(rent_shortfall(0, u64::MAX), 0);
}

#[test]
fn an_owner_who_cannot_pay_mints_nothing() {
    let mut ctx = minting(2_499);
    assert_eq!(mint(&mut ctx, 1_500, 4_000), Err(Rejection::InsufficientFunds));
    assert_eq!(ctx, minting(2_499));
    let mut ctx = minting(2_500);
    assert_eq!(mint(&mut ctx, 1_500, 4_000), Ok(()));
    assert_eq!(ctx.authority.lamports, 0);
}

#[test]
fn the_metadata_takes_148_bytes_and_its_texts() {
    assert_eq!(METADATA_FIXED_LEN, 148);
    assert_eq!(badge_metadata_len("", "", ""), Ok(148));
    assert_eq!(badge_metadata_len("Agent One", "AGT", "https://example.org/agent-one.json"), Ok(148 + 9 + 3 + 34));
    assert_eq!(
        badge_metadata_len(&"n".repeat(64), &"s".repeat(16), &"u".repeat(200)),
        Ok(148 + 64 + 16 + 200)
    );
    assert_eq!(badge_metadata_len("é", "", ""), Ok(150));
}

#[test]
fn the_texts_of_a_badge_have_their_bounds() {
    assert_eq!((MAX_BADGE_NAME_LEN, MAX_BADGE_SYMBOL_LEN, MAX_BADGE_URI_LEN), (64, 16, 200));
    assert_eq!(badge_metadata_len(&"n".repeat(65), "", ""), Err(ErrorCode::BadgeNameTooLong));
    assert_eq!(badge_metadata_len("", &"s".repeat(17), ""), Err(ErrorCode::BadgeSymbolTooLong));
    assert_eq!(badge_metadata_len("", "", &"u".repeat(201)), Err(ErrorCode::BadgeUriTooLong));
    assert_eq!(
        badge_metadata_len(&"n".repeat(65), &"s".repeat(17), &"u".repeat(201)),
        Err(ErrorCode::BadgeNameTooLong)
    );
    assert_eq!(
        badge_metadata_len("", &"s".repeat(17), &"u".repeat(201)),
        Err(ErrorCode::BadgeSymbolTooLong)
    );
}

#[test]
fn a_badge_with_too_long_a_text_is_not_minted() {
    let mut ctx = minting(10_000);
    assert_eq!(
        mint_agent_badge(&mut ctx, "n".repeat(65), "AGT".to_string(), "u".to_string(), 0, 10),
        Err(Rejection::Program(ErrorCode::BadgeNameTooLong))
    );
    assert_eq!(
        mint_agent_badge(&mut ctx, "n".to_string(), "s".repeat(17), "u".to_string(), 0, 10),
        Err(Rejection::Program(ErrorCode::BadgeSymbolTooLong))
    );
    assert_eq!(
        mint_agent_badge(&mut ctx, "n".to_string(), "AGT".to_string(), "u".repeat(201), 0, 10),
        Err(Rejection::Program(ErrorCode::BadgeUriTooLong))
    );
    assert_eq!(ctx, minting(10_000));
    assert_eq!(
        mint_agent_badge(&mut ctx, "n".repeat(64), "s".repeat(16), "u".repeat(200), 0, 10),
        Ok(())
    );
}

#[test]
fn a_badge_goes_to_the_owner_of_the_agent_only() {
    let mut other_record = minting(10_000);
    other_record.agent_account.authority = [2u8; 32];
    let before = other_record.clone();
    assert_eq!(mint(&mut other_record, 0, 10), Err(Rejection::OwnerMismatch));
    assert_eq!(other_record, before);

    let mut other_address = minting(10_000);
    other_address.agent_address = agent_address(&[2u8; 32], &PROGRAM).unwrap().0;
    assert_eq!(mint(&mut other_address, 0, 10), Err(Rejection::SeedsMismatch));

    let mut other_mint = minting(10_000);
    other_mint.badge_address = badge_address(&[2u8; 32], &PROGRAM).unwrap().0;
    assert_eq!(mint(&mut other_mint, 0, 10), Err(Rejection::SeedsMismatch));
    assert_eq!(other_mint.badge_mint, None);

    let mut underived = minting(10_000);
    let own = Some((underived.agent_address, 255));
    assert_eq!(
        mint_agent_badge_at(
            &mut underived,
            &own,
            &None,
            "n".to_string(),
            "s".to_string(),
            "u".to_string(),
            0,
            10
        ),
        Err(Rejection::NoProgramAddress)
    );
    assert_eq!(underived, minting(10_000));
}

#[test]
fn a_holding_that_exists_stops_the_mint() {
    let mut ctx = minting(10_000);
    ctx.token_account = Some(BadgeHolding { owner: OWNER, mint: ctx.badge_address, amount: 0 });
    let before = ctx.clone();
    assert_eq!(mint(&mut ctx, 0, 10), Err(Rejection::AlreadyInitialized));
    assert_eq!(ctx, before);
}
