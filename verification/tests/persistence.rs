use sha2::Digest;
use lockin::{
    EncryptedLockStore, LockDuration, LockError, LockRule, LockState, LockStateSnapshot, TimeAnchor,
    TimeValidator,
};

fn test_key() -> Vec<u8> {
    [0xAAu8; 32].to_vec()
}

fn test_lock() -> Result<LockState, LockError> {
    let duration = LockDuration::from_days(7)?;
    let rule = LockRule::new("Firefox.exe", duration)?;
    LockState::new(rule, chrono::Utc::now().timestamp_millis())
}

fn test_time_validator() -> Result<TimeValidator, LockError> {
    let mut validator = TimeValidator::new();
    let anchor = TimeAnchor::now()?;
    validator.set_reference_anchor(anchor)?;
    Ok(validator)
}

/// The bytes that stand for a serialized snapshot in these tests: the lock and
/// the validator's reference anchor, `|`-separated.
fn snapshot_bytes(lock: &LockState, validator: &TimeValidator) -> Vec<u8> {
    let anchor = validator.reference_anchor().expect("reference anchor");
    format!(
        "{}|{}|{}|{}|{}|{}",
        lock.rule().app_name(),
        lock.rule().duration().days(),
        lock.start_time(),
        lock.end_time(),
        anchor.wall_clock(),
        anchor.monotonic_ms()
    )
    .into_bytes()
}

/// Rebuilds the snapshot that `snapshot_bytes` wrote.
fn snapshot_from_bytes(bytes: &[u8]) -> LockStateSnapshot {
    let text = String::from_utf8(bytes.to_vec()).expect("utf-8");
    let parts: Vec<&str> = text.split('|').collect();
    assert_eq!(parts.len(), 6);
    let duration = LockDuration::from_days(parts[1].parse().unwrap()).unwrap();
    let rule = LockRule::new(parts[0], duration).unwrap();
    let lock = LockState::restore(rule, parts[2].parse().unwrap(), parts[3].parse().unwrap()).expect("valid lock");
    let anchor = TimeAnchor::from_parts(parts[4].parse().unwrap(), parts[5].parse().unwrap());
    let validator = TimeValidator::restore(Some(anchor), vec![anchor]);
    LockStateSnapshot { lock_state: lock, time_validator: validator }
}

#[test]
fn store_creation_requires_32_byte_key() {
    let short_key = vec![0u8; 16];
    let result = EncryptedLockStore::new(short_key);
    assert!(result.is_err());

    let correct_key = vec![0u8; 32];
    let result = EncryptedLockStore::new(correct_key);
    assert!(result.is_ok());
}

#[test]
fn store_can_persist_and_load() -> Result<(), LockError> {
    let mut store = EncryptedLockStore::new(test_key())?;
    let lock = test_lock()?;
    let validator = test_time_validator()?;
    let bytes = snapshot_bytes(&lock, &validator);

    store.persist(&bytes)?;

    let loaded = store.load()?;

    assert_eq!(loaded, bytes);
    let snapshot = snapshot_from_bytes(&loaded);
    assert!(store.validate_snapshot(&snapshot).is_ok());
    assert_eq!(snapshot.lock_state.rule().app_name(), lock.rule().app_name());
    assert_eq!(snapshot.lock_state.start_time(), lock.start_time());
    assert_eq!(snapshot.lock_state.end_time(), lock.end_time());
    assert_eq!(snapshot.time_validator.reference_anchor(), validator.reference_anchor());

    Ok(())
}

#[test]
fn load_without_persist_fails() -> Result<(), LockError> {
    let store = EncryptedLockStore::new(test_key())?;
    let result = store.load();
    assert!(result.is_err());
    Ok(())
}

#[test]
fn tampering_detected_via_hmac() -> Result<(), LockError> {
    let mut store = EncryptedLockStore::new(test_key())?;
    let lock = test_lock()?;
    let validator = test_time_validator()?;

    store.persist(&snapshot_bytes(&lock, &validator))?;

    // Tamper with the ciphertext.
    let mut snapshot = store.stored_snapshot().unwrap().clone();
    if !snapshot.ciphertext.is_empty() {
        snapshot.ciphertext[0] ^= 0xFF;
    }
    store.restore_snapshot(Some(snapshot))?;

    let result = store.load();
    assert!(result.is_err());

    match result {
        Err(LockError::IntegrityCheckFailed { .. }) => {}
        _ => panic!("Expected IntegrityCheckFailed"),
    }

    Ok(())
}

#[test]
fn wrong_key_fails_decryption() -> Result<(), LockError> {
    let mut store1 = EncryptedLockStore::new(test_key())?;
    let lock = test_lock()?;
    let validator = test_time_validator()?;

    store1.persist(&snapshot_bytes(&lock, &validator))?;

    let wrong_key = [0xBBu8; 32].to_vec();
    let mut store2 = EncryptedLockStore::new(wrong_key)?;
    store2.restore_snapshot(store1.stored_snapshot().cloned())?;

    let result = store2.load();
    assert!(result.is_err());

    Ok(())
}

#[test]
fn each_encryption_uses_different_nonce() -> Result<(), LockError> {
    let mut store = EncryptedLockStore::new(test_key())?;
    let lock = test_lock()?;
    let validator = test_time_validator()?;
    let bytes = snapshot_bytes(&lock, &validator);

    store.persist(&bytes)?;
    let nonce1 = store.stored_snapshot().unwrap().nonce.clone();

    store.persist(&bytes)?;
    let nonce2 = store.stored_snapshot().unwrap().nonce.clone();

    assert_ne!(nonce1, nonce2);

    Ok(())
}

#[test]
fn load_validates_snapshot_consistency() -> Result<(), LockError> {
    let mut store = EncryptedLockStore::new(test_key())?;
    let lock = test_lock()?;
    let validator = test_time_validator()?;

    store.persist(&snapshot_bytes(&lock, &validator))?;

    let result = store.load();
    assert!(result.is_ok());
    let snapshot = snapshot_from_bytes(&result?);
    assert!(store.validate_snapshot(&snapshot).is_ok());
    assert_eq!(snapshot.lock_state.end_time(), lock.end_time());
    assert_eq!(snapshot.time_validator.reference_anchor(), validator.reference_anchor());

    Ok(())
}

#[test]
fn key_error_reports_length() {
    match EncryptedLockStore::new(vec![1u8; 16]) {
        Err(LockError::InvalidEncryptionKey { reason }) => {
            assert_eq!(reason, "Key must be 32 bytes (256 bits), got 16")
        }
        other => panic!("unexpected {:?}", other),
    }
}

#[test]
fn stored_snapshot_layout() {
    let mut store = EncryptedLockStore::new(test_key()).unwrap();
    assert!(store.stored_snapshot().is_none());
    store.persist(b"hello").unwrap();
    let snap = store.stored_snapshot().unwrap();
    assert_eq!(snap.version, 1);
    assert_eq!(snap.nonce.len(), 12);
    // AES-GCM appends a 16-byte tag; the ciphertext is not the plaintext.
    assert_eq!(snap.ciphertext.len(), 5 + 16);
    assert_ne!(&snap.ciphertext[..5], b"hello");
    assert_eq!(snap.hmac.len(), 32);
    assert_eq!(store.load().unwrap(), b"hello".to_vec());
}

#[test]
fn tag_mismatch_reports_both_tags_in_hex() {
    let mut store = EncryptedLockStore::new(test_key()).unwrap();
    store.persist(b"data").unwrap();
    let mut snap = store.stored_snapshot().unwrap().clone();
    let good_tag = snap.hmac.clone();
    snap.hmac = vec![0xABu8; 32];
    store.restore_snapshot(Some(snap)).unwrap();
    match store.load() {
        Err(LockError::IntegrityCheckFailed { expected_hmac, computed_hmac }) => {
            assert_eq!(expected_hmac, hex::encode(&good_tag));
            assert_eq!(computed_hmac, "ab".repeat(32));
            assert_eq!(expected_hmac.len(), 64);
        }
        other => panic!("unexpected {:?}", other),
    }
}

#[test]
fn restore_rejects_bad_nonce_and_clears() {
    let mut store = EncryptedLockStore::new(test_key()).unwrap();
    store.persist(b"x").unwrap();
    let mut snap = store.stored_snapshot().unwrap().clone();
    snap.nonce = vec![0u8; 11];
    match store.restore_snapshot(Some(snap)) {
        Err(LockError::LoadedStateInvalid { reason }) => assert_eq!(reason, "Nonce must be 12 bytes"),
        other => panic!("unexpected {:?}", other),
    }
    assert_eq!(store.load().unwrap(), b"x".to_vec());
    store.restore_snapshot(None).unwrap();
    match store.load() {
        Err(LockError::FileIoError { reason }) => assert_eq!(reason, "No snapshot data available"),
        other => panic!("unexpected {:?}", other),
    }
}

#[test]
fn wrong_key_reports_decryption_failure() {
    let mut store1 = EncryptedLockStore::new(test_key()).unwrap();
    store1.persist(b"secret").unwrap();
    let other_key = [0xBBu8; 32].to_vec();
    let mut store2 = EncryptedLockStore::new(other_key.clone()).unwrap();
    // Re-tag store1's snapshot under the other key: key, version (LE), nonce, ciphertext.
    let mut snap = store1.stored_snapshot().unwrap().clone();
    let mut hasher = sha2::Sha256::new();
    hasher.update(&other_key);
    hasher.update(snap.version.to_le_bytes());
    hasher.update(&snap.nonce);
    hasher.update(&snap.ciphertext);
    snap.hmac = hasher.finalize().to_vec();
    store2.restore_snapshot(Some(snap)).unwrap();
    match store2.load() {
        Err(LockError::DecryptionFailed { reason }) => assert_eq!(reason, "Decryption failed: aead::Error"),
        other => panic!("unexpected {:?}", other),
    }
}

#[test]
fn snapshot_validation_rules() {
    let store = EncryptedLockStore::new(test_key()).unwrap();
    let lock = test_lock().unwrap();
    let empty = LockStateSnapshot { lock_state: lock.clone(), time_validator: TimeValidator::new() };
    match store.validate_snapshot(&empty) {
        Err(LockError::LoadedStateInvalid { reason }) => {
            assert_eq!(reason, "Time validator has no reference anchor")
        }
        other => panic!("unexpected {:?}", other),
    }
    let odd = LockStateSnapshot {
        lock_state: lock,
        time_validator: TimeValidator::restore(Some(TimeAnchor::from_parts(1, 1)), vec![]),
    };
    match store.validate_snapshot(&odd) {
        Err(LockError::LoadedStateInvalid { reason }) => assert_eq!(reason, "Time validator history is empty"),
        other => panic!("unexpected {:?}", other),
    }
}

#[test]
fn persist_with_nonce_is_deterministic() {
    let mut a = EncryptedLockStore::new(test_key()).unwrap();
    let mut b = EncryptedLockStore::new(test_key()).unwrap();
    let nonce = vec![7u8; 12];
    a.persist_with_nonce(b"snapshot", nonce.clone()).unwrap();
    b.persist_with_nonce(b"snapshot", nonce.clone()).unwrap();
    let sa = a.stored_snapshot().unwrap();
    let sb = b.stored_snapshot().unwrap();
    assert_eq!(sa.nonce, nonce);
    assert_eq!(sa.ciphertext, sb.ciphertext);
    assert_eq!(sa.hmac, sb.hmac);
    assert_eq!(sa.hmac.len(), 32);
    assert_ne!(sa.ciphertext, b"snapshot".to_vec());
    assert_eq!(a.load().unwrap(), b"snapshot".to_vec());
}
