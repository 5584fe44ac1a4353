use agent_protocol::address::{
    agent_address, badge_address, check_seeds, escrow_address, keys_equal, task_address, zero_key,
};
use agent_protocol::error::Rejection;
use anchor_lang::prelude::Pubkey;

const PROGRAM: [u8; 32] = [7u8; 32];

#[test]
fn the_vault_address_of_a_task_is_the_known_one() {
    let expected: [u8; 32] = [
        128, 98, 158, 96, 4, 142, 239, 231, 35, 93, 190, 168, 3, 152, 75, 28, 26, 123, 30, 175, 212,
        94, 83, 144, 130, 179, 246, 168, 251, 239, 71, 171,
    ];
    assert_eq!(escrow_address(&[9u8; 32], &PROGRAM), Some((expected, 255)));
}

#[test]
fn the_record_address_of_a_task_is_the_known_one() {
    let expected: [u8; 32] = [
        93, 205, 25, 231, 113, 22, 43, 0, 180, 230, 197, 119, 132, 142, 242, 25, 156, 16, 160, 83,
        207, 4, 243, 159, 82, 186, 126, 185, 142, 17, 97, 186,
    ];
    assert_eq!(task_address(&[9u8; 32], &PROGRAM), Some((expected, 255)));
}

#[test]
fn the_record_address_of_an_agent_is_the_known_one() {
    let expected: [u8; 32] = [
        196, 23, 35, 53, 219, 137, 185, 181, 97, 85, 38, 166, 246, 175, 232, 102, 212, 176, 117, 217,
        217, 181, 67, 68, 126, 109, 130, 204, 155, 6, 34, 215,
    ];
    assert_eq!(agent_address(&[1u8; 32], &PROGRAM), Some((expected, 255)));
}

#[test]
fn the_mint_address_of_a_badge_is_the_known_one() {
    let expected: [u8; 32] = [
        218, 251, 53, 9, 129, 108, 141, 17, 2, 201, 134, 194, 60, 97, 80, 193, 186, 199, 160, 160,
        152, 54, 126, 241, 92, 87, 178, 1, 177, 106, 26, 208,
    ];
    assert_eq!(badge_address(&[1u8; 32], &PROGRAM), Some((expected, 253)));
}

#[test]
fn addresses_are_those_that_callers_compute_from_tag_and_key() {
    let program = Pubkey::new_from_array(PROGRAM);
    for seed in 0u8..20 {
        let key = [seed; 32];
        let cases: [(&[u8], Option<([u8; 32], u8)>); 4] = [
            (b"agent", agent_address(&key, &PROGRAM)),
            (b"task", task_address(&key, &PROGRAM)),
            (b"escrow", escrow_address(&key, &PROGRAM)),
            (b"badge", badge_address(&key, &PROGRAM)),
        ];
        for (tag, derived) in cases.iter() {
            let (address, bump) = Pubkey::find_program_address(&[tag, &key], &program);
            assert_eq!(*derived, Some((address.to_bytes(), bump)));
        }
    }
}

#[test]
fn an_address_depends_on_tag_key_and_program() {
    let key = [9u8; 32];
    let vault = escrow_address(&key, &PROGRAM).unwrap().0;
    assert_ne!(vault, key);
    assert_ne!(vault, PROGRAM);
    assert_ne!(vault, task_address(&key, &PROGRAM).unwrap().0);
    assert_ne!(vault, agent_address(&key, &PROGRAM).unwrap().0);
    assert_ne!(vault, escrow_address(&[10u8; 32], &PROGRAM).unwrap().0);
    assert_ne!(vault, escrow_address(&key, &[8u8; 32]).unwrap().0);
    assert_eq!(escrow_address(&key, &PROGRAM), escrow_address(&key, &PROGRAM));
}

#[test]
fn keys_are_equal_where_every_byte_is() {
    let mut other = [5u8; 32];
    assert!(keys_equal(&[5u8; 32], &other));
    other[31] = 6;
    assert!(!keys_equal(&[5u8; 32], &other));
    other[31] = 5;
    other[0] = 4;
    assert!(!keys_equal(&[5u8; 32], &other));
    assert_eq!(zero_key(), [0u8; 32]);
}

#[test]
fn a_record_is_held_against_the_address_derived_for_it() {
    let derived = agent_address(&[1u8; 32], &PROGRAM);
    let address = derived.unwrap().0;
    assert_eq!(check_seeds(&derived, &address), Ok(()));
    assert_eq!(check_seeds(&derived, &[1u8; 32]), Err(Rejection::SeedsMismatch));
    assert_eq!(check_seeds(&None, &address), Err(Rejection::NoProgramAddress));
    assert_eq!(check_seeds(&Some((address, 0)), &address), Ok(()));
}
