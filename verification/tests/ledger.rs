use dear_future::address::find_capsule_address;
use dear_future::errors::ErrorCode;
use dear_future::events::{CapsuleClosed, CapsuleUnlocked};
use dear_future::identity::Identity;
use dear_future::ledger::Ledger;

const T: i64 = 1_700_000_000;

fn party(n: u8) -> Identity {
    Identity { bytes: [n; 32] }
}

fn fresh() -> Ledger {
    let mut ledger = Ledger::new();
    ledger.initialize_config(party(99)).unwrap();
    ledger
}

fn create(ledger: &mut Ledger, creator: Identity, unlock_date: i64, now: i64) -> Identity {
    let (capsule_key, _) = ledger.next_capsule_address(&creator).unwrap();
    ledger
        .create_capsule(
            capsule_key,
            creator,
            "A".to_string(),
            "B".to_string(),
            unlock_date,
            None,
            now,
        )
        .unwrap();
    capsule_key
}

#[test]
fn new_ledger_is_empty() {
    let ledger = Ledger::new();
    assert_eq!(ledger.config(), None);
    assert_eq!(ledger.capsule(&party(1)), None);
    assert_eq!(ledger.next_capsule_address(&party(1)), None);
}

#[test]
fn registry_is_initialized_once() {
    let mut ledger = Ledger::new();
    assert_eq!(ledger.initialize_config(party(7)), Ok(()));
    let config = ledger.config().unwrap();
    assert_eq!(config.authority, party(7));
    assert_eq!(config.total_capsules, 0);
    assert_eq!(config.version, 1);
    assert_eq!(config.reserved, [0u8; 31]);
    assert_eq!(ledger.initialize_config(party(8)), Err(ErrorCode::AccountAlreadyInUse));
    assert_eq!(ledger.config(), Some(config));

    // Nor does a later initialization reset the count.
    create(&mut ledger, party(1), T + 1, T);
    assert_eq!(ledger.initialize_config(party(7)), Err(ErrorCode::AccountAlreadyInUse));
    assert_eq!(ledger.config().unwrap().total_capsules, 1);
}

#[test]
fn creation_before_initialization_fails() {
    let mut ledger = Ledger::new();
    let (capsule_key, _) = find_capsule_address(&party(1), 0).unwrap();
    let r = ledger.create_capsule(
        capsule_key,
        party(1),
        "A".to_string(),
        "B".to_string(),
        T + 1,
        None,
        T,
    );
    assert_eq!(r, Err(ErrorCode::AccountNotInitialized));
    assert_eq!(ledger.config(), None);
    assert_eq!(ledger.capsule(&capsule_key), None);
}

#[test]
fn ids_count_up_across_creators() {
    let mut ledger = fresh();
    let creators = [party(1), party(2), party(1), party(3), party(2), party(1)];
    let mut keys = Vec::new();
    for (n, creator) in creators.iter().enumerate() {
        assert_eq!(ledger.config().unwrap().total_capsules, n as u64);
        // A creation that is refused in between does not count.
        let (key, _) = ledger.next_capsule_address(creator).unwrap();
        let refused = ledger.create_capsule(
            key,
            *creator,
            "A".to_string(),
            "B".to_string(),
            T,
            None,
            T,
        );
        assert_eq!(refused, Err(ErrorCode::UnlockDateMustBeFuture));
        assert_eq!(ledger.capsule(&key), None);
        assert_eq!(ledger.config().unwrap().total_capsules, n as u64);

        let key = create(&mut ledger, *creator, T + 1, T);
        let capsule = ledger.capsule(&key).unwrap();
        assert_eq!(capsule.id, n as u64);
        assert_eq!(capsule.creator, *creator);
        assert_eq!(capsule.owner, *creator);
        assert_eq!(key, find_capsule_address(creator, n as u64).unwrap().0);
        assert!(!keys.contains(&key));
        keys.push(key);
    }
    assert_eq!(ledger.config().unwrap().total_capsules, 6);
    for (n, key) in keys.iter().enumerate() {
        assert_eq!(ledger.capsule(key).unwrap().id, n as u64);
    }
}

#[test]
fn creation_at_another_address_fails() {
    let mut ledger = fresh();
    create(&mut ledger, party(1), T + 1, T);
    // The address of the capsule that exists: the count has moved on.
    let (old_key, _) = find_capsule_address(&party(1), 0).unwrap();
    // The address of the next capsule of somebody else.
    let (other_key, _) = find_capsule_address(&party(2), 1).unwrap();
    for key in [old_key, other_key, party(1)] {
        let r = ledger.create_capsule(
            key,
            party(1),
            "A".to_string(),
            "B".to_string(),
            T + 1,
            None,
            T,
        );
        assert_eq!(r, Err(ErrorCode::AddressMismatch));
    }
    assert_eq!(ledger.config().unwrap().total_capsules, 1);
    assert_eq!(ledger.capsule(&other_key), None);
    assert_eq!(ledger.capsule(&old_key).unwrap().id, 0);
}

#[test]
fn scenario_of_one_capsule() {
    let mut ledger = fresh();
    let me = party(1);
    let (capsule_key, _) = ledger.next_capsule_address(&me).unwrap();
    let created = ledger
        .create_capsule(capsule_key, me, "A".to_string(), "B".to_string(), T + 100, None, T)
        .unwrap();
    assert_eq!(created.capsule, capsule_key);
    assert_eq!(created.title, "A");
    let capsule = ledger.capsule(&capsule_key).unwrap();
    assert_eq!(capsule.id, 0);
    assert!(!capsule.is_unlocked);

    assert_eq!(
        ledger.unlock_capsule(capsule_key, me, T + 50),
        Err(ErrorCode::CapsuleNotReadyToUnlock)
    );
    assert!(!ledger.capsule(&capsule_key).unwrap().is_unlocked);

    assert_eq!(
        ledger.unlock_capsule(capsule_key, me, T + 150),
        Ok(CapsuleUnlocked { capsule: capsule_key, unlocker: me, timestamp: T + 150 })
    );
    assert!(ledger.capsule(&capsule_key).unwrap().is_unlocked);

    assert_eq!(
        ledger.update_capsule(capsule_key, me, Some("C".to_string()), None, None, false, T + 151),
        Err(ErrorCode::CapsuleAlreadyUnlocked)
    );
    assert_eq!(ledger.capsule(&capsule_key).unwrap().content, "B");

    assert_eq!(
        ledger.close_capsule(capsule_key, me, T + 152),
        Ok(CapsuleClosed { capsule: capsule_key, closer: me, timestamp: T + 152 })
    );
    assert_eq!(ledger.capsule(&capsule_key), None);
    assert_eq!(ledger.config().unwrap().total_capsules, 1);
}

#[test]
fn nothing_works_on_a_closed_capsule() {
    let mut ledger = fresh();
    let me = party(1);
    let capsule_key = create(&mut ledger, me, T + 1, T);
    ledger.unlock_capsule(capsule_key, me, T + 1).unwrap();
    ledger.close_capsule(capsule_key, me, T + 2).unwrap();

    assert_eq!(
        ledger.update_capsule(capsule_key, me, None, None, None, false, T + 3),
        Err(ErrorCode::AccountNotInitialized)
    );
    assert_eq!(
        ledger.unlock_capsule(capsule_key, me, T + 3),
        Err(ErrorCode::AccountNotInitialized)
    );
    assert_eq!(
        ledger.transfer_capsule(capsule_key, me, party(2), None, T + 3),
        Err(ErrorCode::AccountNotInitialized)
    );
    assert_eq!(ledger.close_capsule(capsule_key, me, T + 3), Err(ErrorCode::AccountNotInitialized));
    // The id is not given out again: the next capsule lives elsewhere.
    let r = ledger.create_capsule(
        capsule_key,
        me,
        "A".to_string(),
        "B".to_string(),
        T + 10,
        None,
        T + 3,
    );
    assert_eq!(r, Err(ErrorCode::AddressMismatch));
    assert_eq!(ledger.capsule(&capsule_key), None);
    let next = create(&mut ledger, me, T + 10, T + 3);
    assert_ne!(next, capsule_key);
    assert_eq!(ledger.capsule(&next).unwrap().id, 1);
}

#[test]
fn capsules_are_independent() {
    let mut ledger = fresh();
    let first = create(&mut ledger, party(1), T + 10, T);
    let second = create(&mut ledger, party(2), T + 20, T);
    let third = create(&mut ledger, party(1), T + 30, T);

    ledger
        .update_capsule(second, party(2), Some("C".to_string()), Some(T + 25), None, false, T + 1)
        .unwrap();
    ledger.transfer_capsule(third, party(1), party(2), Some(party(50)), T + 2).unwrap();
    ledger.unlock_capsule(first, party(1), T + 10).unwrap();

    let a = ledger.capsule(&first).unwrap();
    let b = ledger.capsule(&second).unwrap();
    let c = ledger.capsule(&third).unwrap();
    assert!(a.is_unlocked && !b.is_unlocked && !c.is_unlocked);
    assert_eq!((a.id, b.id, c.id), (0, 1, 2));
    assert_eq!((a.content.as_str(), b.content.as_str(), c.content.as_str()), ("B", "C", "B"));
    assert_eq!((a.unlock_date, b.unlock_date, c.unlock_date), (T + 10, T + 25, T + 30));
    assert_eq!((a.owner, b.owner, c.owner), (party(1), party(2), party(2)));
    assert_eq!(c.mint, Some(party(50)));
    assert_eq!(c.mint_creator, Some(party(1)));
    assert_eq!((a.updated_at, b.updated_at, c.updated_at), (T + 10, T + 1, T + 2));

    // Removing the first leaves the others where they are.
    ledger.close_capsule(first, party(1), T + 11).unwrap();
    assert_eq!(ledger.capsule(&first), None);
    assert_eq!(ledger.capsule(&second), Some(b));
    assert_eq!(ledger.capsule(&third), Some(c));
    assert_eq!(ledger.config().unwrap().total_capsules, 3);
}

#[test]
fn refusals_leave_the_ledger_alone() {
    let mut ledger = fresh();
    let me = party(1);
    let capsule_key = create(&mut ledger, me, T + 100, T);
    let before = ledger.capsule(&capsule_key).unwrap();
    let config = ledger.config();

    assert_eq!(
        ledger.update_capsule(capsule_key, party(2), None, None, None, false, T + 1),
        Err(ErrorCode::UnauthorizedAccess)
    );
    assert_eq!(
        ledger.update_capsule(capsule_key, me, Some("c".repeat(301)), None, None, false, T + 1),
        Err(ErrorCode::ContentTooLong)
    );
    assert_eq!(
        ledger.update_capsule(capsule_key, me, None, Some(T + 100), None, false, T + 1),
        Err(ErrorCode::InvalidUnlockDateExtension)
    );
    assert_eq!(
        ledger.update_capsule(capsule_key, me, None, None, Some("u".repeat(501)), false, T + 1),
        Err(ErrorCode::UrlTooLong)
    );
    assert_eq!(
        ledger.unlock_capsule(capsule_key, party(2), T + 100),
        Err(ErrorCode::UnauthorizedAccess)
    );
    assert_eq!(
        ledger.transfer_capsule(capsule_key, me, me, None, T + 1),
        Err(ErrorCode::CannotTransferToSelf)
    );
    assert_eq!(
        ledger.transfer_capsule(capsule_key, party(2), party(3), None, T + 1),
        Err(ErrorCode::UnauthorizedAccess)
    );
    assert_eq!(
        ledger.close_capsule(capsule_key, me, T + 1),
        Err(ErrorCode::CannotCloseLockedCapsule)
    );
    assert_eq!(
        ledger.close_capsule(capsule_key, party(2), T + 1),
        Err(ErrorCode::UnauthorizedAccess)
    );
    assert_eq!(ledger.capsule(&capsule_key), Some(before));
    assert_eq!(ledger.config(), config);
}

#[test]
fn transferred_capsule_obeys_its_new_owner() {
    let mut ledger = fresh();
    let capsule_key = create(&mut ledger, party(1), T + 100, T);
    ledger.transfer_capsule(capsule_key, party(1), party(2), None, T + 1).unwrap();
    assert_eq!(
        ledger.update_capsule(capsule_key, party(1), None, Some(T + 200), None, false, T + 2),
        Err(ErrorCode::UnauthorizedAccess)
    );
    ledger.update_capsule(capsule_key, party(2), None, Some(T + 200), None, false, T + 2).unwrap();
    assert_eq!(
        ledger.unlock_capsule(capsule_key, party(2), T + 199),
        Err(ErrorCode::CapsuleNotReadyToUnlock)
    );
    ledger.unlock_capsule(capsule_key, party(2), T + 200).unwrap();
    assert_eq!(
        ledger.close_capsule(capsule_key, party(1), T + 201),
        Err(ErrorCode::UnauthorizedAccess)
    );
    ledger.close_capsule(capsule_key, party(2), T + 201).unwrap();
    assert_eq!(ledger.capsule(&capsule_key), None);
}

#[test]
fn unlocked_capsule_stays_unlocked() {
    let mut ledger = fresh();
    let capsule_key = create(&mut ledger, party(1), T + 1, T);
    ledger.unlock_capsule(capsule_key, party(1), T + 1).unwrap();
    ledger.transfer_capsule(capsule_key, party(1), party(2), None, T + 2).unwrap();
    ledger.unlock_capsule(capsule_key, party(2), T + 3).unwrap();
    let capsule = ledger.capsule(&capsule_key).unwrap();
    assert!(capsule.is_unlocked);
    assert_eq!(capsule.unlock_date, T + 1);
    for (content, date, url, remove) in [
        (None, None, None, false),
        (Some("C".to_string()), None, None, false),
        (None, Some(T + 500), None, false),
        (None, None, Some("u".to_string()), false),
        (None, None, None, true),
        (Some("c".repeat(301)), Some(T), Some("u".repeat(501)), false),
    ] {
        assert_eq!(
            ledger.update_capsule(capsule_key, party(2), content, date, url, remove, T + 4),
            Err(ErrorCode::CapsuleAlreadyUnlocked)
        );
    }
    assert_eq!(ledger.capsule(&capsule_key), Some(capsule));
}
