use anchor_lang::prelude::Pubkey;
use escrow::address::{
    derive_address, id_bytes, program_id, rederive, seeds_of, signer_seeds_of, Namespace, PROGRAM_ID,
};
use escrow::Identity;
use std::str::FromStr;

fn program_key() -> Pubkey {
    Pubkey::from_str("7ptKBMKwd4CdXWP5NXAoqXzsGxhE5ifmDVqxJMtDP9J5").unwrap()
}

#[test]
fn program_identifier_bytes() {
    assert_eq!(program_key().to_bytes(), PROGRAM_ID);
    assert_eq!(program_id(), Identity::new(PROGRAM_ID));
}

#[test]
fn identifier_bytes_are_little_endian() {
    assert_eq!(id_bytes(0), vec![0u8; 8]);
    assert_eq!(id_bytes(1), vec![1u8, 0, 0, 0, 0, 0, 0, 0]);
    assert_eq!(
        id_bytes(0x0102_0304_0506_0708),
        vec![0x08u8, 0x07, 0x06, 0x05, 0x04, 0x03, 0x02, 0x01]
    );
    assert_eq!(id_bytes(u64::MAX), vec![0xffu8; 8]);
    for id in [0u64, 1, 255, 256, 65_535, 1 << 32, u64::MAX - 1, u64::MAX] {
        assert_eq!(id_bytes(id), id.to_le_bytes().to_vec());
    }
}

#[test]
fn namespace_tags() {
    assert_eq!(Namespace::Escrow.tag_bytes(), b"escrow".to_vec());
    assert_eq!(Namespace::Vault.tag_bytes(), b"vault".to_vec());
}

#[test]
fn seeds_are_tag_then_identifier() {
    assert_eq!(
        seeds_of(Namespace::Escrow, 258),
        vec![b"escrow".to_vec(), vec![2u8, 1, 0, 0, 0, 0, 0, 0]]
    );
    assert_eq!(
        seeds_of(Namespace::Vault, 258),
        vec![b"vault".to_vec(), vec![2u8, 1, 0, 0, 0, 0, 0, 0]]
    );
    assert_eq!(
        signer_seeds_of(258, 254),
        vec![b"escrow".to_vec(), vec![2u8, 1, 0, 0, 0, 0, 0, 0], vec![254u8]]
    );
}

#[test]
fn derive_finds_the_program_address() {
    for id in [0u64, 1, 2, 3, 42, 1 << 40, u64::MAX] {
        let (address, bump) =
            Pubkey::find_program_address(&[b"escrow", &id.to_le_bytes()], &program_key());
        assert_eq!(
            derive_address(Namespace::Escrow, id),
            Some((Identity::new(address.to_bytes()), bump))
        );
        let (address, bump) =
            Pubkey::find_program_address(&[b"vault", &id.to_le_bytes()], &program_key());
        assert_eq!(derive_address(Namespace::Vault, id), Some((Identity::new(address.to_bytes()), bump)));
    }
}

#[test]
fn derive_is_deterministic_and_tells_escrows_apart() {
    let record = derive_address(Namespace::Escrow, 1).unwrap();
    let vault = derive_address(Namespace::Vault, 1).unwrap();
    assert_eq!(derive_address(Namespace::Escrow, 1), Some(record));
    assert_eq!(derive_address(Namespace::Vault, 1), Some(vault));
    assert_ne!(record.0, vault.0);
    assert_ne!(derive_address(Namespace::Escrow, 2).unwrap().0, record.0);
    assert_ne!(derive_address(Namespace::Vault, 2).unwrap().0, vault.0);
    assert_ne!(record.0, program_id());
}

#[test]
fn rederive_with_the_found_salt_gives_the_found_address() {
    for id in [0u64, 1, 7, u64::MAX] {
        let (address, bump) = derive_address(Namespace::Escrow, id).unwrap();
        assert_eq!(rederive(id, bump), Some(address));
        let created = Pubkey::create_program_address(
            &[b"escrow", &id.to_le_bytes(), &[bump]],
            &program_key(),
        )
        .unwrap();
        assert_eq!(address, Identity::new(created.to_bytes()));
    }
}

#[test]
fn rederive_with_another_salt_gives_another_address_or_none() {
    let (address, bump) = derive_address(Namespace::Escrow, 1).unwrap();
    let mut others = 0;
    for salt in 0..=255u8 {
        if salt == bump {
            continue;
        }
        let expected = Pubkey::create_program_address(
            &[b"escrow", &1u64.to_le_bytes(), &[salt]],
            &program_key(),
        )
        .ok()
        .map(|key| Identity::new(key.to_bytes()));
        let found = rederive(1, salt);
        assert_eq!(found, expected);
        assert_ne!(found, Some(address));
        if found.is_some() {
            others += 1;
        }
        if salt > bump {
            assert_eq!(found, None);
        }
    }
    assert!(others > 0);
}

#[test]
fn identities_compare_by_their_bytes() {
    let mut bytes = [7u8; 32];
    let a = Identity::new(bytes);
    assert_eq!(a, Identity::new([7u8; 32]));
    assert_eq!(a.bytes, bytes);
    bytes[31] = 8;
    assert_ne!(a, Identity::new(bytes));
    bytes[31] = 7;
    bytes[0] = 6;
    assert_ne!(a, Identity::new(bytes));
}
