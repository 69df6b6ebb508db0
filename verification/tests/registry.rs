use stealth_registry::entry::{Claim, Register, UpdateAuthority};
use stealth_registry::error::StealthError;
use stealth_registry::identity::Identity;
use stealth_registry::registry::{register, update_authority, update_destination, Registry};
use stealth_registry::slot::{derive_slot, Slot};

fn key(tag: u8) -> Identity {
    Identity::new([tag; 32])
}

fn creator(identity: Identity) -> Register {
    Register { authority: Claim { identity, proven: true } }
}

fn caller(identity: Identity) -> UpdateAuthority {
    UpdateAuthority { authority: Claim { identity, proven: true } }
}

fn fresh() -> Registry {
    Registry::new(key(7))
}

#[test]
fn new_registry_has_its_program_and_no_entry() {
    let registry = fresh();
    assert!(registry.program_id() == key(7));
    assert!(registry.lookup("ariel").is_none());
}

#[test]
fn registered_handle_is_found_with_its_authority() {
    let mut registry = fresh();
    let written = register(&mut registry, &creator(key(1)), "ariel_1".to_string(), Some(key(2)))
        .unwrap()
        .unwrap();
    assert_eq!(written.handle, "ariel_1");
    assert!(written.authority == key(1));
    assert!(written.destination_pubkey == key(2));
    assert_eq!(written.bump, 254);
    let found = registry.lookup("ariel_1").unwrap();
    assert_eq!(found.handle, "ariel_1");
    assert!(found.authority == key(1));
    assert!(found.destination_pubkey == key(2));
    assert_eq!(found.bump, 254);
}

#[test]
fn handles_are_case_sensitive() {
    let mut registry = fresh();
    assert!(register(&mut registry, &creator(key(1)), "ariel".to_string(), None).unwrap().is_ok());
    assert!(registry.lookup("Ariel").is_none());
    assert!(register(&mut registry, &creator(key(2)), "Ariel".to_string(), None).unwrap().is_ok());
    assert!(registry.lookup("ariel").unwrap().authority == key(1));
    assert!(registry.lookup("Ariel").unwrap().authority == key(2));
}

#[test]
fn second_registration_fails_and_leaves_the_first_authority() {
    let mut registry = fresh();
    assert!(register(&mut registry, &creator(key(1)), "ariel".to_string(), None).unwrap().is_ok());
    let again = register(&mut registry, &creator(key(2)), "ariel".to_string(), Some(key(2)));
    assert_eq!(again.unwrap().unwrap_err(), StealthError::HandleAlreadyRegistered);
    let found = registry.lookup("ariel").unwrap();
    assert!(found.authority == key(1));
    assert!(found.destination_pubkey == key(1));
}

#[test]
fn registration_reports_handle_defects() {
    let mut registry = fresh();
    let ctx = creator(key(1));
    assert_eq!(
        register(&mut registry, &ctx, String::new(), None).unwrap().unwrap_err(),
        StealthError::HandleEmpty
    );
    assert_eq!(
        register(&mut registry, &ctx, "a".repeat(33), None).unwrap().unwrap_err(),
        StealthError::HandleTooLong
    );
    assert_eq!(
        register(&mut registry, &ctx, "bad-handle!".to_string(), None).unwrap().unwrap_err(),
        StealthError::InvalidHandleChars
    );
    assert!(registry.lookup("bad-handle!").is_none());
}

#[test]
fn overlong_handle_with_bad_characters_is_too_long() {
    let mut registry = fresh();
    let handle = "!".repeat(40);
    assert_eq!(
        register(&mut registry, &creator(key(1)), handle, None).unwrap().unwrap_err(),
        StealthError::HandleTooLong
    );
}

#[test]
fn handle_of_eleven_three_byte_characters_is_too_long() {
    let mut registry = fresh();
    let handle = "\u{20ac}".repeat(11);
    assert_eq!(handle.len(), 33);
    assert_eq!(
        register(&mut registry, &creator(key(1)), handle, None).unwrap().unwrap_err(),
        StealthError::HandleTooLong
    );
}

#[test]
fn registration_without_proof_of_control_fails() {
    let mut registry = fresh();
    let ctx = Register { authority: Claim { identity: key(1), proven: false } };
    assert_eq!(
        register(&mut registry, &ctx, "ariel".to_string(), None).unwrap().unwrap_err(),
        StealthError::AuthorizationFailed
    );
    assert!(registry.lookup("ariel").is_none());
}

#[test]
fn defect_is_reported_before_missing_proof_of_control() {
    let mut registry = fresh();
    let ctx = Register { authority: Claim { identity: key(1), proven: false } };
    assert_eq!(
        register(&mut registry, &ctx, "no spaces".to_string(), None).unwrap().unwrap_err(),
        StealthError::InvalidHandleChars
    );
}

#[test]
fn changes_to_an_unregistered_handle_find_nothing() {
    let mut registry = fresh();
    assert_eq!(
        update_authority(&mut registry, &caller(key(1)), "ariel".to_string(), key(2)),
        Err(StealthError::HandleNotFound)
    );
    assert_eq!(
        update_destination(&mut registry, &caller(key(1)), "ariel".to_string(), key(2)),
        Err(StealthError::HandleNotFound)
    );
    assert_eq!(
        update_authority(&mut registry, &caller(key(1)), "a".repeat(33), key(2)),
        Err(StealthError::HandleNotFound)
    );
    assert!(registry.lookup("ariel").is_none());
}

#[test]
fn transfer_by_a_stranger_is_unauthorized_and_changes_nothing() {
    let mut registry = fresh();
    assert!(register(&mut registry, &creator(key(1)), "ariel".to_string(), Some(key(5)))
        .unwrap()
        .is_ok());
    assert_eq!(
        update_authority(&mut registry, &caller(key(2)), "ariel".to_string(), key(2)),
        Err(StealthError::Unauthorized)
    );
    let unproven = UpdateAuthority { authority: Claim { identity: key(1), proven: false } };
    assert_eq!(
        update_authority(&mut registry, &unproven, "ariel".to_string(), key(2)),
        Err(StealthError::Unauthorized)
    );
    let found = registry.lookup("ariel").unwrap();
    assert!(found.authority == key(1));
    assert!(found.destination_pubkey == key(5));
}

#[test]
fn control_moves_with_the_authority() {
    let mut registry = fresh();
    assert!(register(&mut registry, &creator(key(1)), "ariel".to_string(), None).unwrap().is_ok());
    assert_eq!(
        update_authority(&mut registry, &caller(key(1)), "ariel".to_string(), key(2)),
        Ok(())
    );
    assert_eq!(
        update_authority(&mut registry, &caller(key(1)), "ariel".to_string(), key(3)),
        Err(StealthError::Unauthorized)
    );
    assert!(registry.lookup("ariel").unwrap().authority == key(2));
    assert_eq!(
        update_authority(&mut registry, &caller(key(2)), "ariel".to_string(), key(3)),
        Ok(())
    );
    assert!(registry.lookup("ariel").unwrap().authority == key(3));
}

#[test]
fn destination_and_authority_change_independently() {
    let mut registry = fresh();
    assert!(register(&mut registry, &creator(key(1)), "ariel".to_string(), Some(key(4)))
        .unwrap()
        .is_ok());
    assert_eq!(
        update_destination(&mut registry, &caller(key(1)), "ariel".to_string(), key(5)),
        Ok(())
    );
    let found = registry.lookup("ariel").unwrap();
    assert!(found.authority == key(1));
    assert!(found.destination_pubkey == key(5));
    assert_eq!(
        update_authority(&mut registry, &caller(key(1)), "ariel".to_string(), key(6)),
        Ok(())
    );
    let found = registry.lookup("ariel").unwrap();
    assert!(found.authority == key(6));
    assert!(found.destination_pubkey == key(5));
    assert_eq!(found.handle, "ariel");
    assert_eq!(found.bump, 254);
}

#[test]
fn destination_change_by_a_stranger_is_unauthorized() {
    let mut registry = fresh();
    assert!(register(&mut registry, &creator(key(1)), "ariel".to_string(), None).unwrap().is_ok());
    assert_eq!(
        update_destination(&mut registry, &caller(key(2)), "ariel".to_string(), key(2)),
        Err(StealthError::Unauthorized)
    );
    assert!(registry.lookup("ariel").unwrap().destination_pubkey == key(1));
}

#[test]
fn changes_touch_only_the_entry_of_the_handle() {
    let mut registry = fresh();
    assert!(register(&mut registry, &creator(key(1)), "ariel".to_string(), None).unwrap().is_ok());
    assert!(register(&mut registry, &creator(key(1)), "ariel_1".to_string(), None)
        .unwrap()
        .is_ok());
    assert_eq!(
        update_authority(&mut registry, &caller(key(1)), "ariel_1".to_string(), key(2)),
        Ok(())
    );
    assert_eq!(
        update_destination(&mut registry, &caller(key(2)), "ariel_1".to_string(), key(3)),
        Ok(())
    );
    let untouched = registry.lookup("ariel").unwrap();
    assert_eq!(untouched.handle, "ariel");
    assert!(untouched.authority == key(1));
    assert!(untouched.destination_pubkey == key(1));
    let changed = registry.lookup("ariel_1").unwrap();
    assert!(changed.authority == key(2));
    assert!(changed.destination_pubkey == key(3));
}

#[test]
fn registries_of_different_programs_store_an_entry_at_different_places() {
    let mut one = Registry::new(key(7));
    let mut other = Registry::new(key(9));
    let in_one = register(&mut one, &creator(key(1)), "ariel".to_string(), None).unwrap().unwrap();
    let in_other =
        register(&mut other, &creator(key(1)), "ariel".to_string(), None).unwrap().unwrap();
    assert_eq!(in_one.bump, 254);
    assert_eq!(in_other.bump, 251);
}

#[test]
fn ariel_scenario() {
    let (k1, k2, k3) = (key(1), key(2), key(3));
    let mut registry = fresh();
    let written =
        register(&mut registry, &creator(k1), "ariel".to_string(), None).unwrap().unwrap();
    assert!(written.destination_pubkey == k1);
    assert!(registry.lookup("ariel").unwrap().destination_pubkey == k1);

    assert_eq!(update_destination(&mut registry, &caller(k1), "ariel".to_string(), k2), Ok(()));
    let found = registry.lookup("ariel").unwrap();
    assert!(found.authority == k1);
    assert!(found.destination_pubkey == k2);

    assert_eq!(
        update_authority(&mut registry, &caller(k2), "ariel".to_string(), k3),
        Err(StealthError::Unauthorized)
    );
    assert_eq!(update_authority(&mut registry, &caller(k1), "ariel".to_string(), k3), Ok(()));
    let found = registry.lookup("ariel").unwrap();
    assert!(found.authority == k3);
    assert!(found.destination_pubkey == k2);
}

#[test]
fn entry_is_stored_at_the_location_derived_from_its_handle() {
    let mut registry = fresh();
    assert!(register(&mut registry, &creator(key(1)), "ariel".to_string(), None).unwrap().is_ok());
    let slot = derive_slot(&key(7), "ariel").unwrap();
    let stored = registry.entry_at(&slot.address).unwrap();
    assert_eq!(stored.handle, "ariel");
    assert!(stored.authority == key(1));
    assert_eq!(stored.bump, slot.bump);
    assert!(registry.entry_at(&key(7)).is_none());
}

#[test]
fn create_at_writes_the_bump_of_the_slot() {
    let mut registry = fresh();
    let slot = Slot { address: key(40), bump: 200 };
    let written =
        registry.create_at(&slot, &creator(key(1)), "ariel".to_string(), Some(key(2))).unwrap();
    assert_eq!(written.handle, "ariel");
    assert!(written.authority == key(1));
    assert!(written.destination_pubkey == key(2));
    assert_eq!(written.bump, 200);
    let stored = registry.entry_at(&key(40)).unwrap();
    assert_eq!(stored.handle, "ariel");
    assert!(stored.authority == key(1));
    assert!(stored.destination_pubkey == key(2));
    assert_eq!(stored.bump, 200);
    assert!(registry.entry_at(&key(41)).is_none());
}

#[test]
fn create_at_an_occupied_location_fails_whatever_the_handle() {
    let mut registry = fresh();
    let slot = Slot { address: key(40), bump: 200 };
    assert!(registry.create_at(&slot, &creator(key(1)), "ariel".to_string(), None).is_ok());
    let again = registry.create_at(&slot, &creator(key(2)), "muriel".to_string(), None);
    assert_eq!(again.unwrap_err(), StealthError::HandleAlreadyRegistered);
    let stored = registry.entry_at(&key(40)).unwrap();
    assert_eq!(stored.handle, "ariel");
    assert!(stored.authority == key(1));
}

#[test]
fn create_at_checks_the_handle_then_the_proof_then_the_location() {
    let mut registry = fresh();
    let slot = Slot { address: key(40), bump: 200 };
    assert!(registry.create_at(&slot, &creator(key(1)), "ariel".to_string(), None).is_ok());
    let unproven = Register { authority: Claim { identity: key(2), proven: false } };
    assert_eq!(
        registry.create_at(&slot, &unproven, String::new(), None).unwrap_err(),
        StealthError::HandleEmpty
    );
    assert_eq!(
        registry.create_at(&slot, &unproven, "a".repeat(33), None).unwrap_err(),
        StealthError::HandleTooLong
    );
    assert_eq!(
        registry.create_at(&slot, &unproven, "a b".to_string(), None).unwrap_err(),
        StealthError::InvalidHandleChars
    );
    assert_eq!(
        registry.create_at(&slot, &unproven, "ariel".to_string(), None).unwrap_err(),
        StealthError::AuthorizationFailed
    );
    assert_eq!(
        registry.create_at(&slot, &creator(key(2)), "ariel".to_string(), None).unwrap_err(),
        StealthError::HandleAlreadyRegistered
    );
}

#[test]
fn changes_at_a_location() {
    let mut registry = fresh();
    let slot = Slot { address: key(40), bump: 200 };
    assert!(registry.create_at(&slot, &creator(key(1)), "ariel".to_string(), None).is_ok());
    assert_eq!(
        registry.transfer_authority_at(&key(41), &caller(key(1)), key(2)),
        Err(StealthError::HandleNotFound)
    );
    assert_eq!(
        registry.set_destination_at(&key(41), &caller(key(1)), key(2)),
        Err(StealthError::HandleNotFound)
    );
    assert_eq!(
        registry.set_destination_at(&key(40), &caller(key(2)), key(2)),
        Err(StealthError::Unauthorized)
    );
    assert_eq!(registry.set_destination_at(&key(40), &caller(key(1)), key(2)), Ok(()));
    assert_eq!(
        registry.transfer_authority_at(&key(40), &caller(key(2)), key(3)),
        Err(StealthError::Unauthorized)
    );
    assert_eq!(registry.transfer_authority_at(&key(40), &caller(key(1)), key(3)), Ok(()));
    let stored = registry.entry_at(&key(40)).unwrap();
    assert_eq!(stored.handle, "ariel");
    assert!(stored.authority == key(3));
    assert!(stored.destination_pubkey == key(2));
    assert_eq!(stored.bump, 200);
}

#[test]
fn many_entries_keep_their_own_fields() {
    let mut registry = fresh();
    for tag in 0u8..20 {
        let slot = Slot { address: key(100 + tag), bump: tag };
        let handle = format!("user_{}", tag);
        assert!(registry.create_at(&slot, &creator(key(tag)), handle, None).is_ok());
    }
    assert_eq!(registry.transfer_authority_at(&key(105), &caller(key(5)), key(50)), Ok(()));
    for tag in 0u8..20 {
        let stored = registry.entry_at(&key(100 + tag)).unwrap();
        assert_eq!(stored.handle, format!("user_{}", tag));
        assert_eq!(stored.bump, tag);
        assert!(stored.destination_pubkey == key(tag));
        if tag == 5 {
            assert!(stored.authority == key(50));
        } else {
            assert!(stored.authority == key(tag));
        }
    }
}
