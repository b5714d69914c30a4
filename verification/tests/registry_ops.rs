//! End-to-end tests of the registry operations: creation, update, deploy,
//! the error taxonomy, and the factory counter.

use forge_factory::errors::ErrorCode;
use forge_factory::identity::Identity;
use forge_factory::registry::{derive_entry_address, Registry};

fn setup(owner: Identity) -> Registry {
    let mut reg = Registry::new();
    assert!(reg.initialize(owner, 255).is_ok());
    reg
}

#[test]
fn scenario_create_update_deploy() {
    let a = Identity(1);
    let b = Identity(2);
    let mut reg = Registry::new();

    assert!(reg.initialize(a, 255).is_ok());

    let addr = reg
        .create_program(a, "x".to_string(), "d".to_string(), 1_700_000_000, 254)
        .expect("creation must succeed");
    assert_eq!(reg.factory_state().unwrap().program_count, 1);
    {
        let entry = reg.get_program(&addr).expect("entry must exist");
        assert_eq!(entry.name, "x");
        assert_eq!(entry.description, "d");
        assert!(!entry.deployed);
        assert!(entry.payload.is_empty());
        assert_eq!(entry.created_at, 1_700_000_000);
    }

    assert_eq!(reg.update_program(&addr, a, "d2".to_string()), Ok(()));
    assert_eq!(reg.get_program(&addr).unwrap().description, "d2");

    assert_eq!(
        reg.deploy_program(&addr, b, vec![1, 2, 3]),
        Err(ErrorCode::Unauthorized)
    );
    assert!(!reg.get_program(&addr).unwrap().deployed);

    assert_eq!(reg.deploy_program(&addr, a, vec![1, 2, 3]), Ok(()));
    let entry = reg.get_program(&addr).unwrap();
    assert!(entry.deployed);
    assert_eq!(entry.payload, vec![1, 2, 3]);
}

#[test]
fn fresh_namespace_is_uninitialized() {
    let reg = Registry::new();
    assert!(!reg.is_initialized());
    assert!(reg.factory_state().is_none());
}

#[test]
fn initialize_twice_fails() {
    let a = Identity(1);
    let mut reg = setup(a);
    assert_eq!(reg.initialize(a, 255), Err(ErrorCode::AlreadyExists));
    assert_eq!(reg.initialize(Identity(9), 7), Err(ErrorCode::AlreadyExists));
    let f = reg.factory_state().unwrap();
    assert_eq!(f.authority, Identity(1));
    assert_eq!(f.program_count, 0);
}

#[test]
fn duplicate_creation_rejected() {
    let a = Identity(1);
    let mut reg = setup(a);
    let addr = reg
        .create_program(a, "svc".to_string(), "first".to_string(), 10, 1)
        .unwrap();
    let second = reg.create_program(a, "svc".to_string(), "second".to_string(), 20, 2);
    assert_eq!(second.unwrap_err(), ErrorCode::AlreadyExists);
    // The first entry is untouched, and the counter did not move.
    let entry = reg.get_program(&addr).unwrap();
    assert_eq!(entry.description, "first");
    assert_eq!(entry.created_at, 10);
    assert_eq!(reg.factory_state().unwrap().program_count, 1);
}

#[test]
fn same_name_different_owners_coexist() {
    let a = Identity(1);
    let b = Identity(2);
    let mut reg = setup(a);
    let addr_a = reg
        .create_program(a, "svc".to_string(), "by a".to_string(), 1, 1)
        .unwrap();
    let addr_b = reg
        .create_program(b, "svc".to_string(), "by b".to_string(), 2, 2)
        .unwrap();
    assert_eq!(reg.get_program(&addr_a).unwrap().description, "by a");
    assert_eq!(reg.get_program(&addr_b).unwrap().description, "by b");
    assert_eq!(reg.factory_state().unwrap().program_count, 2);
}

#[test]
fn name_bound_is_exact() {
    let a = Identity(1);
    let mut reg = setup(a);
    let name_50: String = "n".repeat(50);
    let name_51: String = "n".repeat(51);
    assert_eq!(
        reg.create_program(a, name_51, "d".to_string(), 1, 1)
            .unwrap_err(),
        ErrorCode::NameTooLong
    );
    assert_eq!(reg.factory_state().unwrap().program_count, 0);
    assert!(reg.create_program(a, name_50, "d".to_string(), 1, 1).is_ok());
    assert_eq!(reg.factory_state().unwrap().program_count, 1);
}

#[test]
fn description_bound_is_exact_on_create() {
    let a = Identity(1);
    let mut reg = setup(a);
    let desc_200: String = "d".repeat(200);
    let desc_201: String = "d".repeat(201);
    assert_eq!(
        reg.create_program(a, "x".to_string(), desc_201, 1, 1)
            .unwrap_err(),
        ErrorCode::DescriptionTooLong
    );
    assert!(reg.create_program(a, "x".to_string(), desc_200, 1, 1).is_ok());
}

#[test]
fn description_bound_is_exact_on_update() {
    let a = Identity(1);
    let mut reg = setup(a);
    let addr = reg
        .create_program(a, "x".to_string(), "d".to_string(), 1, 1)
        .unwrap();
    let desc_201: String = "e".repeat(201);
    assert_eq!(
        reg.update_program(&addr, a, desc_201),
        Err(ErrorCode::DescriptionTooLong)
    );
    assert_eq!(reg.get_program(&addr).unwrap().description, "d");
    let desc_200: String = "e".repeat(200);
    assert_eq!(reg.update_program(&addr, a, desc_200.clone()), Ok(()));
    assert_eq!(reg.get_program(&addr).unwrap().description, desc_200);
}

#[test]
fn non_owner_update_rejected() {
    let a = Identity(1);
    let b = Identity(2);
    let mut reg = setup(a);
    let addr = reg
        .create_program(a, "x".to_string(), "d".to_string(), 1, 1)
        .unwrap();
    assert_eq!(
        reg.update_program(&addr, b, "hijacked".to_string()),
        Err(ErrorCode::Unauthorized)
    );
    assert_eq!(reg.get_program(&addr).unwrap().description, "d");
}

#[test]
fn payload_bound_is_exact() {
    let a = Identity(1);
    let mut reg = setup(a);
    let addr = reg
        .create_program(a, "x".to_string(), "d".to_string(), 1, 1)
        .unwrap();
    let too_big = vec![0u8; 10241];
    assert_eq!(
        reg.deploy_program(&addr, a, too_big),
        Err(ErrorCode::PayloadTooLarge)
    );
    let entry = reg.get_program(&addr).unwrap();
    assert!(!entry.deployed);
    assert!(entry.payload.is_empty());
    let just_fits = vec![7u8; 10240];
    assert_eq!(reg.deploy_program(&addr, a, just_fits.clone()), Ok(()));
    let entry = reg.get_program(&addr).unwrap();
    assert!(entry.deployed);
    assert_eq!(entry.payload, just_fits);
}

#[test]
fn redeploy_and_empty_payload_permitted() {
    let a = Identity(1);
    let mut reg = setup(a);
    let addr = reg
        .create_program(a, "x".to_string(), "d".to_string(), 1, 1)
        .unwrap();
    assert_eq!(reg.deploy_program(&addr, a, vec![1]), Ok(()));
    assert_eq!(reg.deploy_program(&addr, a, vec![]), Ok(()));
    let entry = reg.get_program(&addr).unwrap();
    assert!(entry.deployed);
    assert!(entry.payload.is_empty());
}

#[test]
fn counter_counts_only_successes() {
    let a = Identity(1);
    let b = Identity(2);
    let mut reg = setup(a);
    assert!(reg.create_program(a, "one".to_string(), "d".to_string(), 1, 1).is_ok());
    assert!(reg.create_program(b, "two".to_string(), "d".to_string(), 2, 2).is_ok());
    assert!(reg.create_program(a, "three".to_string(), "d".to_string(), 3, 3).is_ok());
    assert_eq!(reg.factory_state().unwrap().program_count, 3);
    // A failed creation (duplicate address) does not move the counter.
    assert!(reg.create_program(a, "one".to_string(), "d".to_string(), 4, 4).is_err());
    assert_eq!(reg.factory_state().unwrap().program_count, 3);
    // Nor does a rejected name.
    assert!(reg.create_program(a, "n".repeat(51), "d".to_string(), 5, 5).is_err());
    assert_eq!(reg.factory_state().unwrap().program_count, 3);
}

#[test]
fn addresses_are_deterministic() {
    let a = Identity(1);
    let name = "svc".to_string();
    let first = derive_entry_address(a, &name);
    let second = derive_entry_address(a, &name);
    assert_eq!(first.owner, second.owner);
    assert_eq!(first.name, second.name);

    let mut reg = setup(a);
    let created = reg
        .create_program(a, name.clone(), "d".to_string(), 1, 1)
        .unwrap();
    assert_eq!(created.owner, first.owner);
    assert_eq!(created.name, first.name);
    assert!(reg.has_program_entry(&first));
}

#[test]
fn missing_entry_is_reported() {
    let a = Identity(1);
    let reg = setup(a);
    let addr = derive_entry_address(a, &"ghostly".to_string());
    assert!(!reg.has_program_entry(&addr));
    assert!(reg.get_program(&addr).is_none());
    assert!(reg.is_initialized());
}
