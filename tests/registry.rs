use signingserver::derivation::KeyDerivation;
use signingserver::ids::user_id_text;
use signingserver::registry::{AppState, RegistryError, MAX_USERS};

fn hex(bytes: &[u8]) -> String {
    bytes.iter().map(|b| format!("{:02x}", b)).collect()
}

fn test_state(capacity: usize) -> AppState {
    AppState::with_master_secret(b"master-secret-for-tests".to_vec(), capacity)
}

#[test]
fn derivation_matches_hkdf_sha256() {
    let kd = KeyDerivation::new(b"master-secret-for-tests".to_vec());
    assert_eq!(
        hex(&kd.derive(b"test-seed-12345")),
        "ccf31e049738628ed096a70074ed8c5656cd4d8ecdd480a66c46893f71baeebc"
    );
    assert_eq!(
        hex(&kd.verifying_key(b"test-seed-12345")),
        "8269cc2672f41ec36c2d2ce544f51b7c88b673d6fe8f696bedfd3f565605693d"
    );
}

#[test]
fn derivation_depends_on_master_secret() {
    let kd = KeyDerivation::new(b"another master".to_vec());
    assert_eq!(
        hex(&kd.derive(b"test-seed-12345")),
        "f637d4d6ff1ddb10e5e88f21649841592455c2fd6efddd6267f91cb0d4311600"
    );
    assert_eq!(
        hex(&kd.verifying_key(b"test-seed-12345")),
        "f7c5fc3393ae7b4d4ddaad6c7f5efc35d276c2b5ff576092de6bfe18b76ec260"
    );
}

#[test]
fn derivation_is_deterministic() {
    let kd = KeyDerivation::new(vec![7; 40]);
    assert_eq!(kd.derive(b"seed"), kd.derive(b"seed"));
    assert_eq!(kd.verifying_key(b"seed"), kd.verifying_key(b"seed"));
    assert_ne!(kd.derive(b"seed"), kd.derive(b"seed2"));
    assert_eq!(kd.derive(b""), kd.derive(b""));
}

#[test]
fn signature_matches_ed25519() {
    let mut state = test_state(4);
    let user = state.register_user(b"test-seed-12345").unwrap();
    assert_eq!(
        hex(&user.verifying_key),
        "8269cc2672f41ec36c2d2ce544f51b7c88b673d6fe8f696bedfd3f565605693d"
    );
    let sig = state.sign(user.id, b"Hello, World!").unwrap();
    assert_eq!(
        hex(&sig),
        "65c3982c758470d9899c4cf7503d644a3ee1527207dc0d5092f7901c93489989\
         ca8c66514c14b996486c706435284be3b34a836fa47d8bf90399a38d7e863f09"
    );
}

#[test]
fn different_messages_give_different_signatures() {
    let mut state = test_state(4);
    let user = state.register_user(b"test-seed-12345").unwrap();
    let id = user_id_text(user.id);
    let sig_a = state.sign_message(&id, "Hello, World!").unwrap();
    let sig_b = state.sign_message(&id, "Another message").unwrap();
    assert_eq!(sig_a.len(), 64);
    assert_ne!(sig_a, sig_b);
}

#[test]
fn same_seed_twice_gives_new_ids_and_same_key() {
    let mut state = test_state(4);
    let first = state.register_user(b"dup").unwrap();
    let second = state.register_user(b"dup").unwrap();
    assert_ne!(first.id, second.id);
    assert_eq!(first.verifying_key, second.verifying_key);
    assert_eq!(state.sign(first.id, b"x"), state.sign(second.id, b"x"));
    assert_eq!(state.len(), 2);
}

#[test]
fn signing_is_repeatable() {
    let mut state = test_state(4);
    let user = state.register_user(b"consistency-test").unwrap();
    let first = state.sign(user.id, b"Consistent message").unwrap();
    let second = state.sign(user.id, b"Consistent message").unwrap();
    assert_eq!(first, second);
}

#[test]
fn forgotten_user_cannot_sign() {
    let mut state = test_state(4);
    let user = state.register_user(b"s").unwrap();
    assert!(state.sign(user.id, b"m").is_ok());
    state.forget(user.id);
    assert_eq!(state.sign(user.id, b"m"), Err(RegistryError::NotFound));
    assert_eq!(state.sign(user.id, b"other"), Err(RegistryError::NotFound));
    assert!(!state.contains(user.id));
    assert_eq!(state.len(), 0);
}

#[test]
fn forgotten_user_cannot_sign_by_text() {
    let mut state = test_state(4);
    let user = state.register_user(b"s").unwrap();
    let id = user_id_text(user.id);
    state.delete_user(&id);
    assert_eq!(state.sign_message(&id, "m"), Err(RegistryError::NotFound));
}

#[test]
fn forget_is_idempotent() {
    let mut state = test_state(4);
    let user = state.register_user(b"keep").unwrap();
    state.delete_user("87654321-4321-4321-4321-210987654321");
    state.delete_user("not-a-uuid");
    assert_eq!(state.len(), 1);
    let gone = state.register_user(b"gone").unwrap();
    state.forget(gone.id);
    state.forget(gone.id);
    assert_eq!(state.len(), 1);
    assert!(state.contains(user.id));
    assert!(state.sign(user.id, b"m").is_ok());
}

#[test]
fn capacity_is_enforced() {
    let n = 5;
    let mut state = test_state(n);
    for i in 0..n {
        assert!(state.register_user(format!("seed-{}", i).as_bytes()).is_ok());
    }
    assert_eq!(state.len(), n);
    assert_eq!(
        state.register_user(b"one too many").map(|u| u.id),
        Err(RegistryError::CapacityExceeded)
    );
    assert_eq!(state.len(), n);
}

#[test]
fn forgetting_frees_a_slot() {
    let mut state = test_state(1);
    let user = state.register_user(b"a").unwrap();
    assert!(state.register_user(b"b").is_err());
    state.forget(user.id);
    assert!(state.register_user(b"b").is_ok());
}

#[test]
fn zero_capacity_refuses_everything() {
    let mut state = test_state(0);
    assert_eq!(
        state.register_user(b"a").map(|u| u.id),
        Err(RegistryError::CapacityExceeded)
    );
}

#[test]
fn default_registry_is_empty_with_default_capacity() {
    let state = AppState::new();
    assert_eq!(state.len(), 0);
    assert_eq!(state.capacity(), MAX_USERS);
    assert_eq!(MAX_USERS, 1000);
}

#[test]
fn master_secrets_differ_between_default_registries() {
    let mut a = AppState::new();
    let mut b = AppState::new();
    let ua = a.register_user(b"same seed").unwrap();
    let ub = b.register_user(b"same seed").unwrap();
    assert_ne!(ua.verifying_key, ub.verifying_key);
}

#[test]
fn malformed_id_is_not_found() {
    let state = test_state(4);
    assert_eq!(state.sign_message("not-a-uuid", "m"), Err(RegistryError::NotFound));
    assert_eq!(
        state.sign_message("12345678-1234-1234-1234-123456789abc", "test message"),
        Err(RegistryError::NotFound)
    );
}

#[test]
fn multiple_users_have_distinct_keys() {
    let mut state = test_state(8);
    let u1 = state.register_user(b"user1-seed").unwrap();
    let u2 = state.register_user(b"user2-seed").unwrap();
    let u3 = state.register_user(b"user3-seed").unwrap();
    assert_ne!(u1.id, u2.id);
    assert_ne!(u2.id, u3.id);
    assert_ne!(u1.id, u3.id);
    assert_ne!(u1.verifying_key, u2.verifying_key);
    assert_ne!(u2.verifying_key, u3.verifying_key);
    assert_ne!(u1.verifying_key, u3.verifying_key);
    let s1 = state.sign(u1.id, b"Common message").unwrap();
    let s2 = state.sign(u2.id, b"Common message").unwrap();
    let s3 = state.sign(u3.id, b"Common message").unwrap();
    assert_ne!(s1, s2);
    assert_ne!(s2, s3);
    assert_ne!(s1, s3);
}
