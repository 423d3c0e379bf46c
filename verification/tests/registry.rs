use deposit_dispatch::registry::{discriminate, Protocol, Registration};
use pinocchio::pubkey::Pubkey;

fn entry(protocol: Protocol, byte: u8) -> Registration {
    Registration { protocol, program_id: [byte; 32] }
}

#[test]
fn empty_registry_selects_nothing() {
    assert_eq!(discriminate(&[], &[1u8; 32]), None);
}

#[test]
fn selects_the_entry_that_carries_the_token() {
    let registry = [entry(Protocol::Kamino, 1), entry(Protocol::Jupiter, 2)];
    assert_eq!(discriminate(&registry, &[1u8; 32]), Some(Protocol::Kamino));
    assert_eq!(discriminate(&registry, &[2u8; 32]), Some(Protocol::Jupiter));
}

#[test]
fn unknown_token_selects_nothing() {
    let registry = [entry(Protocol::Kamino, 1), entry(Protocol::Jupiter, 2)];
    assert_eq!(discriminate(&registry, &[3u8; 32]), None);
    assert_eq!(discriminate(&registry, &[0u8; 32]), None);
}

#[test]
fn first_of_two_equal_tokens_is_selected() {
    let registry = [
        entry(Protocol::Jupiter, 9),
        entry(Protocol::Jupiter, 5),
        entry(Protocol::Kamino, 5),
        entry(Protocol::Kamino, 9),
    ];
    assert_eq!(discriminate(&registry, &[5u8; 32]), Some(Protocol::Jupiter));
    assert_eq!(discriminate(&registry, &[9u8; 32]), Some(Protocol::Jupiter));

    let reversed = [entry(Protocol::Kamino, 5), entry(Protocol::Jupiter, 5)];
    assert_eq!(discriminate(&reversed, &[5u8; 32]), Some(Protocol::Kamino));
}

#[test]
fn a_token_is_matched_whole_not_by_prefix() {
    let mut token: Pubkey = [0u8; 32];
    for (index, byte) in token.iter_mut().enumerate() {
        *byte = index as u8;
    }
    let registry = [Registration { protocol: Protocol::Kamino, program_id: token }];
    assert_eq!(discriminate(&registry, &token), Some(Protocol::Kamino));
    for position in 0..32 {
        let mut owner = token;
        owner[position] = owner[position].wrapping_add(1);
        assert_eq!(discriminate(&registry, &owner), None);
    }
}

#[test]
fn later_entries_are_reached_past_near_misses() {
    let mut near = [7u8; 32];
    near[31] = 8;
    let registry = [
        Registration { protocol: Protocol::Kamino, program_id: near },
        entry(Protocol::Jupiter, 7),
    ];
    assert_eq!(discriminate(&registry, &[7u8; 32]), Some(Protocol::Jupiter));
    assert_eq!(discriminate(&registry, &near), Some(Protocol::Kamino));
}
