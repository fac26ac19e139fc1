use route_integrity_registry::{
    CommitKey, CommitStore, Digest, Identity, MemoryStore, RegistryError, RouteCommitment,
    RouteCommitted, RouteIntegrityRegistry, MAX_EXPIRY_DURATION,
};

const NOW: u64 = 1700000000;

fn committer() -> Identity {
    [b'C'; 56]
}

fn test_hash(seed: u8) -> Digest {
    let mut bytes = [0u8; 32];
    bytes[0] = seed;
    bytes[31] = seed;
    bytes
}

fn zero_hash() -> Digest {
    [0u8; 32]
}

fn new_registry() -> RouteIntegrityRegistry<MemoryStore> {
    RouteIntegrityRegistry::new(MemoryStore::new())
}

fn commit(
    registry: &mut RouteIntegrityRegistry<MemoryStore>,
    route_hash: &Digest,
    rules_hash: &Digest,
    solver_hash: &Digest,
    expiry: &u64,
) -> Result<RouteCommitted, RegistryError> {
    registry.commit_route(*route_hash, *rules_hash, *solver_hash, *expiry, NOW, committer())
}

#[test]
fn test_successful_commit() {
    let mut registry = new_registry();

    let route_hash = test_hash(1);
    let rules_hash = test_hash(2);
    let solver_hash = test_hash(3);
    let expiry = 1700001000u64; // 1000 seconds in future

    let result = commit(&mut registry, &route_hash, &rules_hash, &solver_hash, &expiry);
    assert!(result.is_ok());

    let commit = registry.get_commit(route_hash).unwrap();
    assert_eq!(commit.rules_hash, rules_hash);
    assert_eq!(commit.solver_version_hash, solver_hash);
    assert_eq!(commit.expiry, expiry);
    assert_eq!(commit.timestamp, 1700000000);
}

#[test]
fn test_commit_no_expiry() {
    let mut registry = new_registry();

    let route_hash = test_hash(10);
    let rules_hash = test_hash(20);
    let solver_hash = test_hash(30);
    let expiry = 0u64;

    let result = commit(&mut registry, &route_hash, &rules_hash, &solver_hash, &expiry);
    assert!(result.is_ok());

    let commit = registry.get_commit(route_hash).unwrap();
    assert_eq!(commit.expiry, 0);
}

#[test]
fn test_reject_duplicate_route_hash() {
    let mut registry = new_registry();

    let route_hash = test_hash(5);
    let rules_hash = test_hash(6);
    let solver_hash = test_hash(7);
    let expiry = 1700001000u64;

    assert!(commit(&mut registry, &route_hash, &rules_hash, &solver_hash, &expiry).is_ok());

    let result = commit(&mut registry, &route_hash, &rules_hash, &solver_hash, &expiry);
    assert_eq!(result, Err(RegistryError::DuplicateCommitment));
}

#[test]
fn test_reject_empty_route_hash() {
    let mut registry = new_registry();

    let route_hash = zero_hash();
    let rules_hash = test_hash(2);
    let solver_hash = test_hash(3);
    let expiry = 1700001000u64;

    let result = commit(&mut registry, &route_hash, &rules_hash, &solver_hash, &expiry);
    assert_eq!(result, Err(RegistryError::EmptyRouteHash));
}

#[test]
fn test_reject_expired_timestamp() {
    let mut registry = new_registry();

    let route_hash = test_hash(8);
    let rules_hash = test_hash(9);
    let solver_hash = test_hash(10);
    let expiry = 1699999999u64; // In the past

    let result = commit(&mut registry, &route_hash, &rules_hash, &solver_hash, &expiry);
    assert_eq!(result, Err(RegistryError::ExpiredTimestamp));
}

#[test]
fn test_reject_expiry_too_far() {
    let mut registry = new_registry();

    let route_hash = test_hash(11);
    let rules_hash = test_hash(12);
    let solver_hash = test_hash(13);
    let expiry = 1700000000u64 + MAX_EXPIRY_DURATION + 1;

    let result = commit(&mut registry, &route_hash, &rules_hash, &solver_hash, &expiry);
    assert_eq!(result, Err(RegistryError::ExpiryTooFar));
}

#[test]
fn test_get_nonexistent_commit() {
    let registry = new_registry();

    let route_hash = test_hash(99);
    let result = registry.get_commit(route_hash);
    assert_eq!(result, Err(RegistryError::NotFound));
}

#[test]
fn test_has_commit() {
    let mut registry = new_registry();

    let route_hash = test_hash(15);
    let rules_hash = test_hash(16);
    let solver_hash = test_hash(17);

    assert!(!registry.has_commit(route_hash));

    commit(&mut registry, &route_hash, &rules_hash, &solver_hash, &0u64).unwrap();
    assert!(registry.has_commit(route_hash));
}

#[test]
fn test_verify_commit() {
    let mut registry = new_registry();

    let route_hash = test_hash(20);
    let rules_hash = test_hash(21);
    let solver_hash = test_hash(22);

    commit(&mut registry, &route_hash, &rules_hash, &solver_hash, &0u64).unwrap();

    assert!(registry.verify_commit(route_hash, rules_hash, solver_hash));
    assert!(!registry.verify_commit(route_hash, test_hash(99), solver_hash));
    assert!(!registry.verify_commit(route_hash, rules_hash, test_hash(99)));
    assert!(!registry.verify_commit(test_hash(99), rules_hash, solver_hash));
}

#[test]
fn fixed_clock_scenario() {
    let mut registry = new_registry();
    let (h1, h2, h3) = (test_hash(1), test_hash(2), test_hash(3));

    let first = commit(&mut registry, &h1, &h2, &h3, &1_700_001_000);
    assert_eq!(
        first,
        Ok(RouteCommitted {
            route_hash: h1,
            commitment: RouteCommitment {
                rules_hash: h2,
                solver_version_hash: h3,
                committer: committer(),
                timestamp: 1_700_000_000,
                expiry: 1_700_001_000,
            },
        })
    );
    let stored = registry.get_commit(h1).unwrap();
    assert_eq!(stored.rules_hash, h2);
    assert_eq!(stored.solver_version_hash, h3);
    assert_eq!(stored.timestamp, 1_700_000_000);
    assert_eq!(stored.expiry, 1_700_001_000);

    assert_eq!(
        commit(&mut registry, &h1, &h2, &h3, &1_700_001_000),
        Err(RegistryError::DuplicateCommitment)
    );
    assert_eq!(
        commit(&mut registry, &zero_hash(), &h2, &h3, &1_700_001_000),
        Err(RegistryError::EmptyRouteHash)
    );
    assert_eq!(
        commit(&mut registry, &test_hash(4), &h2, &h3, &1_699_999_999),
        Err(RegistryError::ExpiredTimestamp)
    );
    assert_eq!(
        commit(&mut registry, &test_hash(5), &h2, &h3, &(1_700_000_000 + 315_360_000 + 1)),
        Err(RegistryError::ExpiryTooFar)
    );
    assert!(commit(&mut registry, &test_hash(6), &h2, &h3, &0).is_ok());
    assert_eq!(registry.get_commit(test_hash(6)).unwrap().expiry, 0);
}

#[test]
fn duplicate_commit_keeps_first_value() {
    let mut registry = new_registry();
    let key = test_hash(40);
    commit(&mut registry, &key, &test_hash(41), &test_hash(42), &0).unwrap();
    let again = registry.commit_route(key, test_hash(43), test_hash(44), 0, NOW + 5, [b'G'; 56]);
    assert_eq!(again, Err(RegistryError::DuplicateCommitment));
    let stored = registry.get_commit(key).unwrap();
    assert_eq!(stored.rules_hash, test_hash(41));
    assert_eq!(stored.solver_version_hash, test_hash(42));
    assert_eq!(stored.timestamp, NOW);
    assert_eq!(stored.committer, committer());
    assert!(registry.verify_commit(key, test_hash(41), test_hash(42)));
    assert!(!registry.verify_commit(key, test_hash(43), test_hash(44)));
}

#[test]
fn rejected_commit_stores_nothing() {
    let mut registry = new_registry();
    let key = test_hash(50);
    assert_eq!(
        commit(&mut registry, &key, &test_hash(51), &test_hash(52), &NOW),
        Err(RegistryError::ExpiredTimestamp)
    );
    assert!(!registry.has_commit(key));
    assert_eq!(registry.get_commit(key), Err(RegistryError::NotFound));
    assert!(commit(&mut registry, &key, &test_hash(51), &test_hash(52), &(NOW + 1)).is_ok());
}

#[test]
fn expiry_window_edges() {
    let mut registry = new_registry();
    assert_eq!(
        commit(&mut registry, &test_hash(60), &test_hash(1), &test_hash(2), &NOW),
        Err(RegistryError::ExpiredTimestamp)
    );
    assert!(commit(&mut registry, &test_hash(61), &test_hash(1), &test_hash(2), &(NOW + 1)).is_ok());
    assert!(commit(
        &mut registry,
        &test_hash(62),
        &test_hash(1),
        &test_hash(2),
        &(NOW + MAX_EXPIRY_DURATION)
    )
    .is_ok());
    assert_eq!(
        commit(
            &mut registry,
            &test_hash(63),
            &test_hash(1),
            &test_hash(2),
            &(NOW + MAX_EXPIRY_DURATION + 1)
        ),
        Err(RegistryError::ExpiryTooFar)
    );
}

#[test]
fn expiry_check_near_end_of_time() {
    let mut registry = new_registry();
    let now = u64::MAX - 10;
    let r = registry.commit_route(test_hash(70), test_hash(1), test_hash(2), u64::MAX, now, committer());
    assert!(r.is_ok());
    assert_eq!(registry.get_commit(test_hash(70)).unwrap().expiry, u64::MAX);
}

#[test]
fn any_nonzero_byte_makes_a_valid_key() {
    let mut registry = new_registry();
    let mut key = [0u8; 32];
    key[17] = 1;
    assert!(commit(&mut registry, &key, &test_hash(1), &test_hash(2), &0).is_ok());
    assert!(registry.has_commit(key));
    assert!(!registry.has_commit(zero_hash()));
}

#[test]
fn memory_store_keeps_latest_write() {
    let mut store = MemoryStore::new();
    let key = CommitKey { route_hash: test_hash(80) };
    let first = RouteCommitment {
        rules_hash: test_hash(1),
        solver_version_hash: test_hash(2),
        committer: committer(),
        timestamp: 1,
        expiry: 0,
    };
    let second = RouteCommitment { timestamp: 2, ..first };
    assert!(!store.has(&key));
    assert_eq!(store.get(&key), None);
    store.set(&key, first);
    store.set(&CommitKey { route_hash: test_hash(81) }, second);
    assert_eq!(store.get(&key), Some(first));
    store.set(&key, second);
    assert!(store.has(&key));
    assert_eq!(store.get(&key), Some(second));
}

#[test]
fn registry_hands_back_its_store() {
    let mut registry = new_registry();
    commit(&mut registry, &test_hash(90), &test_hash(91), &test_hash(92), &0).unwrap();
    let store = registry.into_store();
    let stored = store.get(&CommitKey { route_hash: test_hash(90) }).unwrap();
    assert_eq!(stored.rules_hash, test_hash(91));
    let reopened = RouteIntegrityRegistry::new(store);
    assert!(reopened.has_commit(test_hash(90)));
}
