use anchor_lang::prelude::Pubkey;
use raffle::address::{
    collection_address, collection_seed_list, config_address, config_seed_list, ticket_address,
    ticket_seed_list, u64_le_bytes,
};
use raffle::Identity;

fn program() -> Identity {
    Identity { bytes: [7u8; 32] }
}

fn expected(seeds: &[&[u8]]) -> (Identity, u8) {
    let (k, bump) = Pubkey::find_program_address(seeds, &Pubkey::new_from_array(program().bytes));
    (Identity { bytes: k.to_bytes() }, bump)
}

#[test]
fn le_bytes_match_std() {
    for n in [0u64, 1, 255, 256, 0x0102_0304_0506_0708, u64::MAX] {
        assert_eq!(u64_le_bytes(n), n.to_le_bytes().to_vec());
    }
}

#[test]
fn seed_lists_hold_the_expected_bytes() {
    assert_eq!(config_seed_list(), vec![b"token_lottery".to_vec()]);
    assert_eq!(collection_seed_list(3), vec![b"collection_mint".to_vec(), vec![3, 0, 0, 0, 0, 0, 0, 0]]);
    assert_eq!(ticket_seed_list(1, 258), vec![vec![1, 0, 0, 0, 0, 0, 0, 0], vec![2, 1, 0, 0, 0, 0, 0, 0]]);
}

#[test]
fn config_address_matches_solana() {
    assert_eq!(config_address(&program()).unwrap(), expected(&[b"token_lottery"]));
}

#[test]
fn collection_address_matches_solana() {
    let round = 5u64.to_le_bytes();
    assert_eq!(collection_address(&program(), 5).unwrap(), expected(&[b"collection_mint", &round]));
}

#[test]
fn ticket_address_matches_solana() {
    let round = 2u64.to_le_bytes();
    let index = 9u64.to_le_bytes();
    assert_eq!(ticket_address(&program(), 2, 9).unwrap(), expected(&[&round, &index]));
}

#[test]
fn addresses_differ_across_rounds_and_indices() {
    let mut seen: Vec<Identity> = Vec::new();
    seen.push(config_address(&program()).unwrap().0);
    for round in 0..3u64 {
        seen.push(collection_address(&program(), round).unwrap().0);
        for index in 0..4u64 {
            seen.push(ticket_address(&program(), round, index).unwrap().0);
        }
    }
    for i in 0..seen.len() {
        for j in i + 1..seen.len() {
            assert_ne!(seen[i], seen[j]);
        }
    }
}

#[test]
fn addresses_depend_on_the_program() {
    let other = Identity { bytes: [8u8; 32] };
    assert_ne!(collection_address(&program(), 0).unwrap().0, collection_address(&other, 0).unwrap().0);
}
