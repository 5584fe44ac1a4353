//! The agent badge: a credential of which exactly one unit is ever minted.
//!
//! The badge mint stands at the address derived from the owner's key. One
//! unit is minted to the owner and the authority to mint is given up in the
//! same instruction, so the supply stays at one.

use crate::address::{
    agent_address, agent_address_of, badge_address, badge_address_of, check_seeds, derived_view,
    keys_equal, seeds_rejection, KeyBytes,
};
use crate::agent::AgentState;
use crate::capability::{byte_len, text_len};
use crate::error::{by_rule, first_of, ErrorCode, Rejection};
use crate::vault::Wallet;
use vstd::prelude::*;

verus! {

/// The most bytes that a badge name may hold.
pub const MAX_BADGE_NAME_LEN: usize = 64;

/// The most bytes that a badge symbol may hold.
pub const MAX_BADGE_SYMBOL_LEN: usize = 16;

/// The most bytes that a badge reference may hold.
pub const MAX_BADGE_URI_LEN: usize = 200;

/// The bytes that the metadata adds to a mint besides its three texts: a
/// header of 4, two keys of 32, a length of 4 before each text, an empty
/// list of 4, and 64 to spare.
pub const METADATA_FIXED_LEN: usize = 4 + 32 + 32 + 4 + 4 + 4 + 4 + 64;

/// The mint of a badge, with the metadata that it carries.
#[derive(Clone, Debug, PartialEq, Eq)]
pub struct BadgeMint {
    /// The balance that keeps the mint stored, in lamports.
    pub lamports: u64,
    /// The number of decimal places of a unit.
    pub decimals: u8,
    /// The units in existence.
    pub supply: u64,
    /// The key that may mint; none once the authority is given up.
    pub mint_authority: Option<KeyBytes>,
    /// The key that may edit the metadata.
    pub update_authority: KeyBytes,
    /// The name of the badge.
    pub name: String,
    /// The symbol of the badge.
    pub symbol: String,
    /// The reference of the badge.
    pub uri: String,
}

/// The units of a badge that one party holds.
#[derive(Clone, Copy, Debug, PartialEq, Eq)]
pub struct BadgeHolding {
    /// The key of the holder.
    pub owner: KeyBytes,
    /// The address of the mint.
    pub mint: KeyBytes,
    /// The units held.
    pub amount: u64,
}

/// What minting a badge touches.
#[derive(Clone, Debug, PartialEq, Eq)]
pub struct MintAgentBadge {
    /// The id of the program under which addresses are derived.
    pub program_id: KeyBytes,
    /// The address at which the agent record is presented.
    pub agent_address: KeyBytes,
    /// The record of the agent that receives the badge.
    pub agent_account: AgentState,
    /// The address at which the new mint is presented.
    pub badge_address: KeyBytes,
    /// The mint at that address: none before the badge is minted.
    pub badge_mint: Option<BadgeMint>,
    /// The owner's holding of the badge: none before the badge is minted.
    pub token_account: Option<BadgeHolding>,
    /// The owner of the agent, who signed and pays.
    pub authority: Wallet,
}

/// Why three texts cannot stamp a badge, the first that applies: the name
/// exceeds 64 bytes, the symbol 16, the reference 200.
pub open spec fn stamp_refusal(name: Seq<char>, symbol: Seq<char>, uri: Seq<char>) -> Option<ErrorCode> {
    if byte_len(name) > MAX_BADGE_NAME_LEN {
        Some(ErrorCode::BadgeNameTooLong)
    } else if byte_len(symbol) > MAX_BADGE_SYMBOL_LEN {
        Some(ErrorCode::BadgeSymbolTooLong)
    } else if byte_len(uri) > MAX_BADGE_URI_LEN {
        Some(ErrorCode::BadgeUriTooLong)
    } else {
        None
    }
}

/// The bytes that the metadata of a badge adds to its mint.
pub open spec fn metadata_len(name: Seq<char>, symbol: Seq<char>, uri: Seq<char>) -> nat {
    METADATA_FIXED_LEN as nat + byte_len(name) + byte_len(symbol) + byte_len(uri)
}

/// What `held` lacks of `needed`.
pub open spec fn shortfall(needed: nat, held: nat) -> nat {
    if needed > held {
        (needed - held) as nat
    } else {
        0
    }
}

/// Why a badge is not minted, the first that applies: the agent record is
/// not the one derived for the key that signed; the record belongs to
/// another key; the mint is not presented at the address derived for that
/// key; a mint or a holding exists already; one of the texts is too long;
/// the owner cannot pay what the mint lacks.
pub open spec fn mint_rejection(
    ctx: MintAgentBadge,
    agent_pda: Option<(Seq<u8>, u8)>,
    badge_pda: Option<(Seq<u8>, u8)>,
    name: Seq<char>,
    symbol: Seq<char>,
    uri: Seq<char>,
    held: nat,
    needed: nat,
) -> Option<Rejection> {
    first_of(
        seeds_rejection(agent_pda, ctx.agent_address@),
        first_of(
            if ctx.agent_account.authority@ != ctx.authority.key@ {
                Some(Rejection::OwnerMismatch)
            } else {
                None
            },
            first_of(
                seeds_rejection(badge_pda, ctx.badge_address@),
                first_of(
                    if ctx.badge_mint is Some || ctx.token_account is Some {
                        Some(Rejection::AlreadyInitialized)
                    } else {
                        None
                    },
                    first_of(
                        by_rule(stamp_refusal(name, symbol, uri)),
                        if ctx.authority.lamports < shortfall(needed, held) {
                            Some(Rejection::InsufficientFunds)
                        } else {
                            None
                        },
                    ),
                ),
            ),
        ),
    )
}

/// The bytes that the metadata of a badge with these texts adds to its mint,
/// or why the texts cannot stamp a badge.
pub fn badge_metadata_len(name: &str, symbol: &str, uri: &str) -> (len: Result<usize, ErrorCode>)
    ensures
        len == match stamp_refusal(name@, symbol@, uri@) {
            Some(code) => Err::<usize, ErrorCode>(code),
            None => Ok(metadata_len(name@, symbol@, uri@) as usize),
        },
        len is Ok ==> len->Ok_0 == metadata_len(name@, symbol@, uri@),
{
    let name_len = text_len(name);
    if name_len > MAX_BADGE_NAME_LEN {
        return Err(ErrorCode::BadgeNameTooLong);
    }
    let symbol_len = text_len(symbol);
    if symbol_len > MAX_BADGE_SYMBOL_LEN {
        return Err(ErrorCode::BadgeSymbolTooLong);
    }
    let uri_len = text_len(uri);
    if uri_len > MAX_BADGE_URI_LEN {
        return Err(ErrorCode::BadgeUriTooLong);
    }
    Ok(METADATA_FIXED_LEN + name_len + symbol_len + uri_len)
}

/// What a balance of `held` lacks of `needed`.
pub fn rent_shortfall(needed: u64, held: u64) -> (lacking: u64)
    ensures
        lacking == shortfall(needed as nat, held as nat),
{
    if needed > held {
        needed - held
    } else {
        0
    }
}

/// Mints the badge of an agent, given the addresses derived for the owner's
/// key: `agent_pda` for the agent record, `badge_pda` for the mint. The new
/// mint holds `held` lamports and needs `needed` to stay stored with its
/// metadata.
///
/// On success the owner has paid what the mint lacked, the mint carries the
/// three texts, one unit exists and the owner holds it, and nobody may mint
/// again. On a rejection nothing changes.
pub fn mint_agent_badge_at(
    ctx: &mut MintAgentBadge,
    agent_pda: &Option<(KeyBytes, u8)>,
    badge_pda: &Option<(KeyBytes, u8)>,
    name: String,
    symbol: String,
    uri: String,
    held: u64,
    needed: u64,
) -> (outcome: Result<(), Rejection>)
    ensures
        final(ctx).program_id == old(ctx).program_id,
        final(ctx).agent_address == old(ctx).agent_address,
        final(ctx).agent_account == old(ctx).agent_account,
        final(ctx).badge_address == old(ctx).badge_address,
        final(ctx).authority.key == old(ctx).authority.key,
        match mint_rejection(
            *old(ctx),
            derived_view(*agent_pda),
            derived_view(*badge_pda),
            name@,
            symbol@,
            uri@,
            held as nat,
            needed as nat,
        ) {
            Some(rejection) => outcome == Err::<(), Rejection>(rejection) && *final(ctx) == *old(ctx),
            None => {
                &&& outcome == Ok::<(), Rejection>(())
                &&& final(ctx).authority.lamports == old(ctx).authority.lamports - shortfall(
                    needed as nat,
                    held as nat,
                )
                &&& final(ctx).badge_mint matches Some(mint)
                &&& mint.lamports == held + shortfall(needed as nat, held as nat)
                &&& mint.decimals == 0
                &&& mint.supply == 1
                &&& mint.mint_authority is None
                &&& mint.update_authority == old(ctx).authority.key
                &&& mint.name@ == name@
                &&& mint.symbol@ == symbol@
                &&& mint.uri@ == uri@
                &&& final(ctx).token_account == Some(
                    BadgeHolding {
                        owner: old(ctx).authority.key,
                        mint: old(ctx).badge_address,
                        amount: 1,
                    },
                )
            },
        },
{
    check_seeds(agent_pda, &ctx.agent_address)?;
    if !keys_equal(&ctx.agent_account.authority, &ctx.authority.key) {
        return Err(Rejection::OwnerMismatch);
    }
    check_seeds(badge_pda, &ctx.badge_address)?;
    if ctx.badge_mint.is_some() || ctx.token_account.is_some() {
        return Err(Rejection::AlreadyInitialized);
    }
    match badge_metadata_len(name.as_str(), symbol.as_str(), uri.as_str()) {
        Err(code) => {
            return Err(Rejection::Program(code));
        },
        Ok(_) => {},
    }
    let lacking = rent_shortfall(needed, held);
    if ctx.authority.lamports < lacking {
        return Err(Rejection::InsufficientFunds);
    }
    ctx.authority.lamports = ctx.authority.lamports - lacking;
    ctx.badge_mint = Some(
        BadgeMint {
            lamports: held + lacking,
            decimals: 0,
            supply: 1,
            mint_authority: None,
            update_authority: ctx.authority.key,
            name,
            symbol,
            uri,
        },
    );
    ctx.token_account = Some(
        BadgeHolding { owner: ctx.authority.key, mint: ctx.badge_address, amount: 1 },
    );
    Ok(())
}

/// Mints the badge of the agent whose owner signed: one unit, to the owner,
/// after which nobody may mint again.
///
/// Rejected where the agent record or the mint is not the one derived for the
/// owner's key, where the record belongs to another key, where the badge
/// exists already, where the name exceeds 64 bytes, the symbol 16 or the
/// reference 200, and where the owner cannot pay what the mint lacks.
pub fn mint_agent_badge(
    ctx: &mut MintAgentBadge,
    name: String,
    symbol: String,
    uri: String,
    held: u64,
    needed: u64,
) -> (outcome: Result<(), Rejection>)
    ensures
        final(ctx).program_id == old(ctx).program_id,
        final(ctx).agent_address == old(ctx).agent_address,
        final(ctx).agent_account == old(ctx).agent_account,
        final(ctx).badge_address == old(ctx).badge_address,
        final(ctx).authority.key == old(ctx).authority.key,
        match mint_rejection(
            *old(ctx),
            agent_address_of(old(ctx).authority.key@, old(ctx).program_id@),
            badge_address_of(old(ctx).authority.key@, old(ctx).program_id@),
            name@,
            symbol@,
            uri@,
            held as nat,
            needed as nat,
        ) {
            Some(rejection) => outcome == Err::<(), Rejection>(rejection) && *final(ctx) == *old(ctx),
            None => {
                &&& outcome == Ok::<(), Rejection>(())
                &&& final(ctx).authority.lamports == old(ctx).authority.lamports - shortfall(
                    needed as nat,
                    held as nat,
                )
                &&& final(ctx).badge_mint matches Some(mint)
                &&& mint.lamports == held + shortfall(needed as nat, held as nat)
                &&& mint.decimals == 0
                &&& mint.supply == 1
                &&& mint.mint_authority is None
                &&& mint.update_authority == old(ctx).authority.key
                &&& mint.name@ == name@
                &&& mint.symbol@ == symbol@
                &&& mint.uri@ == uri@
                &&& final(ctx).token_account == Some(
                    BadgeHolding {
                        owner: old(ctx).authority.key,
                        mint: old(ctx).badge_address,
                        amount: 1,
                    },
                )
            },
        },
{
    let agent_pda = agent_address(&ctx.authority.key, &ctx.program_id);
    let badge_pda = badge_address(&ctx.authority.key, &ctx.program_id);
    mint_agent_badge_at(ctx, &agent_pda, &badge_pda, name, symbol, uri, held, needed)
}

} // verus!
