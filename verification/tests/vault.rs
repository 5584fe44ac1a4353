use agent_protocol::address::escrow_address;
use agent_protocol::error::Rejection;
use agent_protocol::vault::{EscrowVault, Wallet};

const PROGRAM: [u8; 32] = [7u8; 32];
const TASK: [u8; 32] = [9u8; 32];

#[test]
fn a_vault_is_what_it_was_opened_with() {
    let vault = EscrowVault::new([5u8; 32], 42);
    assert_eq!(vault.address(), [5u8; 32]);
    assert_eq!(vault.lamports(), 42);
}

#[test]
fn funding_moves_the_amount_from_the_payer_into_the_vault() {
    let derived = escrow_address(&TASK, &PROGRAM);
    let mut vault = EscrowVault::new(derived.unwrap().0, 10);
    let mut payer = Wallet { key: [1u8; 32], lamports: 100 };
    assert_eq!(vault.fund(&derived, &mut payer, 30), Ok(()));
    assert_eq!(vault.lamports(), 40);
    assert_eq!(payer.lamports, 70);
    assert_eq!(vault.fund(&derived, &mut payer, 0), Ok(()));
    assert_eq!(vault.fund(&derived, &mut payer, 70), Ok(()));
    assert_eq!((vault.lamports(), payer.lamports), (110, 0));
    assert_eq!(vault.address(), derived.unwrap().0);
    assert_eq!(payer.key, [1u8; 32]);
}

#[test]
fn funding_fails_where_the_payer_is_short() {
    let derived = escrow_address(&TASK, &PROGRAM);
    let mut vault = EscrowVault::new(derived.unwrap().0, 10);
    let mut payer = Wallet { key: [1u8; 32], lamports: 29 };
    assert_eq!(vault.fund(&derived, &mut payer, 30), Err(Rejection::InsufficientFunds));
    assert_eq!((vault.lamports(), payer.lamports), (10, 29));
}

#[test]
fn funding_fails_where_the_vault_is_full() {
    let derived = escrow_address(&TASK, &PROGRAM);
    let mut vault = EscrowVault::new(derived.unwrap().0, u64::MAX);
    let mut payer = Wallet { key: [1u8; 32], lamports: 29 };
    assert_eq!(vault.fund(&derived, &mut payer, 1), Err(Rejection::BalanceOverflow));
    assert_eq!((vault.lamports(), payer.lamports), (u64::MAX, 29));
}

#[test]
fn funding_reaches_the_vault_of_the_task_only() {
    let derived = escrow_address(&TASK, &PROGRAM);
    let mut elsewhere = EscrowVault::new(escrow_address(&[8u8; 32], &PROGRAM).unwrap().0, 0);
    let mut payer = Wallet { key: [1u8; 32], lamports: 100 };
    assert_eq!(elsewhere.fund(&derived, &mut payer, 30), Err(Rejection::SeedsMismatch));
    assert_eq!(elsewhere.fund(&None, &mut payer, 30), Err(Rejection::NoProgramAddress));
    assert_eq!((elsewhere.lamports(), payer.lamports), (0, 100));
}
