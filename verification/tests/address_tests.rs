use solsplit::address::make_split_config_seeds;
use solsplit::{create_split_config_address, find_split_config_address, Pubkey, SplitConfig};

fn key(byte: u8) -> Pubkey {
    Pubkey::new_from_array([byte; 32])
}

fn outside(byte: u8) -> anchor_lang::prelude::Pubkey {
    anchor_lang::prelude::Pubkey::new_from_array([byte; 32])
}

#[test]
fn system_program_is_all_zero() {
    assert_eq!(Pubkey::system_program().to_bytes(), [0u8; 32]);
    assert_eq!(
        Pubkey::system_program().to_bytes(),
        anchor_lang::system_program::ID.to_bytes()
    );
}

#[test]
fn identity_keeps_its_bytes() {
    let mut bytes = [0u8; 32];
    for (i, byte) in bytes.iter_mut().enumerate() {
        *byte = i as u8;
    }
    assert_eq!(Pubkey::new_from_array(bytes).to_bytes(), bytes);
    assert_eq!(Pubkey::new_from_array(bytes).bytes, bytes);
}

#[test]
fn seeds_are_tag_sender_and_little_endian_nonce() {
    let seeds = make_split_config_seeds(&key(7), 0x0102_0304_0506_0708);
    assert_eq!(seeds.len(), 3);
    assert_eq!(seeds[0], b"split_config".to_vec());
    assert_eq!(seeds[1], vec![7u8; 32]);
    assert_eq!(seeds[2], vec![8u8, 7, 6, 5, 4, 3, 2, 1]);
}

#[test]
fn found_address_is_the_program_derived_address() {
    for nonce in [0u64, 1, 42, u64::MAX] {
        let found = find_split_config_address(&key(9), &key(3), nonce);
        let (address, bump) = anchor_lang::prelude::Pubkey::find_program_address(
            &[b"split_config", outside(3).as_ref(), &nonce.to_le_bytes()],
            &outside(9),
        );
        assert_eq!(found, Some((Pubkey::new_from_array(address.to_bytes()), bump)));
    }
}

#[test]
fn found_bump_derives_the_same_address() {
    let (address, bump) = find_split_config_address(&key(9), &key(3), 1).unwrap();
    assert_eq!(create_split_config_address(&key(9), &key(3), 1, bump), Some(address));
    assert_ne!(address, key(3));
    assert_ne!(address, key(9));
}

#[test]
fn derivation_with_a_bump_is_the_program_address() {
    let nonce: u64 = 77;
    for bump in 0u8..=255 {
        let derived = create_split_config_address(&key(9), &key(3), nonce, bump);
        let expected = anchor_lang::prelude::Pubkey::create_program_address(
            &[b"split_config", outside(3).as_ref(), &nonce.to_le_bytes(), &[bump]],
            &outside(9),
        );
        match expected {
            Ok(address) => assert_eq!(derived, Some(Pubkey::new_from_array(address.to_bytes()))),
            Err(_) => assert_eq!(derived, None),
        }
    }
}

#[test]
fn addresses_differ_by_sender_nonce_and_program() {
    let (base, _) = find_split_config_address(&key(9), &key(3), 1).unwrap();
    let (other_nonce, _) = find_split_config_address(&key(9), &key(3), 2).unwrap();
    let (other_sender, _) = find_split_config_address(&key(9), &key(4), 1).unwrap();
    let (other_program, _) = find_split_config_address(&key(8), &key(3), 1).unwrap();
    assert_ne!(base, other_nonce);
    assert_ne!(base, other_sender);
    assert_ne!(base, other_program);
}

#[test]
fn a_record_derives_its_own_address() {
    let (address, bump) = find_split_config_address(&key(9), &key(1), 7).unwrap();
    let record = SplitConfig {
        sender: key(1),
        recipient1: key(2),
        recipient2: key(3),
        recipient1_percentage: 30,
        recipient2_percentage: 70,
        executed: false,
        nonce: 7,
        created_at: 100,
        executed_at: 0,
        bump,
    };
    assert_eq!(record.address(&key(9)), Some(address));
}
