use solana_program::pubkey::Pubkey;
use trade_yard::address::{find_program_address, Address};
use trade_yard::{find_item_address, find_item_metadata_address, Seed, ITEM_METADATA_SEED, ITEM_SEED};

fn numbered(n: u8) -> Address {
    let mut bytes = [0u8; 32];
    for (i, b) in bytes.iter_mut().enumerate() {
        *b = n.wrapping_mul(31).wrapping_add(i as u8);
    }
    Address::new(bytes)
}

#[test]
fn seeds_are_the_two_tags() {
    assert_eq!(&ITEM_SEED[..], b"item");
    assert_eq!(&ITEM_METADATA_SEED[..], b"item-metadata");
    assert_eq!(Seed::Item.bytes(), b"item".to_vec());
    assert_eq!(Seed::ItemMetadata.bytes(), b"item-metadata".to_vec());
}

#[test]
fn addresses_are_equal_when_their_bytes_are() {
    assert_eq!(Address::new([5; 32]), Address::new([5; 32]));
    let mut other = [5u8; 32];
    other[31] = 6;
    assert_ne!(Address::new([5; 32]), Address::new(other));
    other = [5u8; 32];
    other[0] = 4;
    assert_ne!(Address::new([5; 32]), Address::new(other));
}

#[test]
fn address_from_slice_and_append_to_mirror_each_other() {
    let bytes: Vec<u8> = (0u8..40).collect();
    let a = Address::from_slice(&bytes, 3);
    assert_eq!(&a.bytes[..], &bytes[3..35]);
    let mut buf = vec![9u8];
    a.append_to(&mut buf);
    assert_eq!(buf.len(), 33);
    assert_eq!(buf[0], 9);
    assert_eq!(&buf[1..], &bytes[3..35]);
}

#[test]
fn item_address_is_the_program_address_of_the_mint() {
    for n in 0u8..8 {
        let program = numbered(n);
        let mint = numbered(n.wrapping_add(100));
        let (expected, bump) = Pubkey::find_program_address(
            &[b"item", &mint.bytes],
            &Pubkey::new_from_array(program.bytes),
        );
        assert_eq!(
            find_item_address(&program, &mint),
            Some((Address::new(expected.to_bytes()), bump))
        );
    }
}

#[test]
fn item_metadata_address_is_the_program_address_of_the_mint() {
    for n in 0u8..8 {
        let program = numbered(n);
        let mint = numbered(n.wrapping_add(100));
        let (expected, bump) = Pubkey::find_program_address(
            &[b"item-metadata", &mint.bytes],
            &Pubkey::new_from_array(program.bytes),
        );
        assert_eq!(
            find_item_metadata_address(&program, &mint),
            Some((Address::new(expected.to_bytes()), bump))
        );
    }
}

#[test]
fn the_two_addresses_of_a_mint_differ_and_depend_on_all_inputs() {
    let program = numbered(1);
    let mint = numbered(2);
    let item = find_item_address(&program, &mint).unwrap();
    let record = find_item_metadata_address(&program, &mint).unwrap();
    assert_ne!(item.0, record.0);
    assert_ne!(item.0, mint);
    assert_ne!(find_item_address(&program, &numbered(3)).unwrap().0, item.0);
    assert_ne!(find_item_address(&numbered(4), &mint).unwrap().0, item.0);
    assert_eq!(find_item_address(&program, &mint), Some(item));
}

#[test]
fn derived_address_can_be_made_again_from_its_bump() {
    let program = numbered(9);
    let mint = numbered(10);
    let (address, bump) = find_item_metadata_address(&program, &mint).unwrap();
    let again = Pubkey::create_program_address(
        &[b"item-metadata", &mint.bytes, &[bump]],
        &Pubkey::new_from_array(program.bytes),
    )
    .unwrap();
    assert_eq!(address.bytes, again.to_bytes());
    assert!(!again.is_on_curve());
}

#[test]
fn no_address_for_a_tag_that_is_too_long() {
    let program = numbered(1);
    let mint = numbered(2);
    assert_eq!(find_program_address(&[7u8; 33], &mint, &program), None);
    assert!(find_program_address(&[7u8; 32], &mint, &program).is_some());
    assert!(find_program_address(&[], &mint, &program).is_some());
}
