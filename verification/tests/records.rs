//! Tests of the individual records: the factory's checked counter and the
//! per-entry update and deploy operations.

use forge_factory::errors::ErrorCode;
use forge_factory::factory::Factory;
use forge_factory::identity::Identity;
use forge_factory::program::Program;

fn sample_entry(owner: Identity) -> Program {
    Program {
        name: "svc".to_string(),
        description: "d".to_string(),
        authority: owner,
        payload: Vec::new(),
        deployed: false,
        created_at: 42,
        bump: 1,
    }
}

#[test]
fn fresh_factory_counts_from_zero() {
    let f = Factory::new(Identity(5), 250);
    assert_eq!(f.authority, Identity(5));
    assert_eq!(f.program_count, 0);
    assert_eq!(f.bump, 250);
}

#[test]
fn counter_increments_by_one() {
    let mut f = Factory::new(Identity(5), 250);
    assert_eq!(f.record_creation(), Ok(()));
    assert_eq!(f.record_creation(), Ok(()));
    assert_eq!(f.program_count, 2);
}

#[test]
fn counter_at_maximum_overflows_cleanly() {
    let mut f = Factory {
        authority: Identity(5),
        program_count: u64::MAX,
        bump: 0,
    };
    assert_eq!(f.record_creation(), Err(ErrorCode::CounterOverflow));
    assert_eq!(f.program_count, u64::MAX);

    let mut almost = Factory {
        authority: Identity(5),
        program_count: u64::MAX - 1,
        bump: 0,
    };
    assert_eq!(almost.record_creation(), Ok(()));
    assert_eq!(almost.program_count, u64::MAX);
}

#[test]
fn entry_update_checks_owner_then_bound() {
    let a = Identity(1);
    let b = Identity(2);
    let mut entry = sample_entry(a);
    assert_eq!(
        entry.update(b, "stolen".to_string()),
        Err(ErrorCode::Unauthorized)
    );
    assert_eq!(entry.description, "d");
    assert_eq!(
        entry.update(a, "e".repeat(201)),
        Err(ErrorCode::DescriptionTooLong)
    );
    assert_eq!(entry.description, "d");
    assert_eq!(entry.update(a, "d2".to_string()), Ok(()));
    assert_eq!(entry.description, "d2");
    // Nothing else changed.
    assert_eq!(entry.name, "svc");
    assert_eq!(entry.created_at, 42);
    assert!(!entry.deployed);
}

#[test]
fn entry_deploy_checks_owner_then_bound() {
    let a = Identity(1);
    let b = Identity(2);
    let mut entry = sample_entry(a);
    assert_eq!(entry.deploy(b, vec![1]), Err(ErrorCode::Unauthorized));
    assert!(!entry.deployed);
    assert_eq!(
        entry.deploy(a, vec![0u8; 10241]),
        Err(ErrorCode::PayloadTooLarge)
    );
    assert!(!entry.deployed);
    assert!(entry.payload.is_empty());
    assert_eq!(entry.deploy(a, vec![9, 8]), Ok(()));
    assert!(entry.deployed);
    assert_eq!(entry.payload, vec![9, 8]);
    assert_eq!(entry.description, "d");
}
