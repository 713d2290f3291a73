use anchor_lang::prelude::Pubkey;
use chain_sensors::identity::Identity;
use chain_sensors::pda::{
    device_address, dq_config_address, dq_state_address, find_address, job_address,
    listing_address, marketplace_address, purchase_record_address, treasury_address, Tag,
};

fn id(n: u8) -> Identity {
    Identity::new([n; 32])
}

const PROGRAM: u8 = 60;

fn expected(seeds: &[&[u8]]) -> Option<(Identity, u8)> {
    let program = Pubkey::new_from_array([PROGRAM; 32]);
    Pubkey::try_find_program_address(seeds, &program)
        .map(|(key, bump)| (Identity::new(key.to_bytes()), bump))
}

#[test]
fn tags_are_the_names_of_the_kinds() {
    assert_eq!(Tag::Marketplace.bytes(), b"marketplace".to_vec());
    assert_eq!(Tag::Treasury.bytes(), b"treasury".to_vec());
    assert_eq!(Tag::Device.bytes(), b"device".to_vec());
    assert_eq!(Tag::Listing.bytes(), b"listing".to_vec());
    assert_eq!(Tag::Purchase.bytes(), b"purchase".to_vec());
    assert_eq!(Tag::QualityJob.bytes(), b"quality_job".to_vec());
    assert_eq!(Tag::DqConfig.bytes(), b"dqcfg".to_vec());
    assert_eq!(Tag::DqState.bytes(), b"dqstate".to_vec());
}

#[test]
fn records_are_found_under_their_seeds() {
    let program = id(PROGRAM);
    assert_eq!(marketplace_address(&id(1), &program), expected(&[b"marketplace", &[1; 32]]));
    assert_eq!(treasury_address(&id(1), &program), expected(&[b"treasury", &[1; 32]]));
    assert_eq!(
        device_address(&id(6), "device1", &program),
        expected(&[b"device", &[6; 32], b"device1"])
    );
    assert_eq!(
        listing_address(&id(6), &id(4), "device1", &program),
        expected(&[b"listing", &[6; 32], &[4; 32], b"device1"])
    );
    assert_eq!(
        purchase_record_address(&id(8), 258, &program),
        expected(&[b"purchase", &[8; 32], &[2, 1, 0, 0, 0, 0, 0, 0]])
    );
    assert_eq!(job_address(&id(30), &program), expected(&[b"quality_job", &[30; 32]]));
    assert_eq!(dq_config_address(&id(7), &program), expected(&[b"dqcfg", &[7; 32]]));
    assert_eq!(dq_state_address(&id(7), &program), expected(&[b"dqstate", &[7; 32]]));
    assert!(marketplace_address(&id(1), &program).is_some());
}

#[test]
fn addresses_tell_records_apart() {
    let program = id(PROGRAM);
    let first = purchase_record_address(&id(8), 0, &program).unwrap();
    let second = purchase_record_address(&id(8), 1, &program).unwrap();
    let other_listing = purchase_record_address(&id(9), 0, &program).unwrap();
    assert_ne!(first.0, second.0);
    assert_ne!(first.0, other_listing.0);
    assert_ne!(first.0, id(8));
    assert_eq!(first, purchase_record_address(&id(8), 0, &program).unwrap());
    assert_ne!(
        marketplace_address(&id(1), &program).unwrap().0,
        treasury_address(&id(1), &program).unwrap().0
    );
    assert_ne!(
        marketplace_address(&id(1), &program).unwrap().0,
        marketplace_address(&id(1), &id(61)).unwrap().0
    );
}

#[test]
fn seeds_beyond_the_ledgers_limits_derive_nothing() {
    let program = id(PROGRAM);
    assert_eq!(device_address(&id(6), &"d".repeat(33), &program), None);
    assert!(device_address(&id(6), &"d".repeat(32), &program).is_some());
    let many: Vec<Vec<u8>> = (0..15u8).map(|i| vec![i]).collect();
    assert_eq!(find_address(Tag::Device, many, &program), None);
    let fewer: Vec<Vec<u8>> = (0..14u8).map(|i| vec![i]).collect();
    assert!(find_address(Tag::Device, fewer, &program).is_some());
}

#[test]
fn address_of_a_tag_and_keys() {
    let program = id(PROGRAM);
    assert_eq!(
        find_address(Tag::Listing, vec![vec![1, 2, 3], vec![], vec![4]], &program),
        expected(&[b"listing", &[1, 2, 3], &[], &[4]])
    );
    assert_eq!(find_address(Tag::Listing, Vec::new(), &program), expected(&[b"listing"]));
}
