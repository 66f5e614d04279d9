use stablemint::crypto::{DekCache, WalletEncryptedData, WalletEncryptionService};
use stablemint::error::AppError;

fn entries(pairs: &[(&str, &str)]) -> Vec<(String, String)> {
    pairs.iter().map(|(k, v)| (k.to_string(), v.to_string())).collect()
}

#[test]
fn encrypt_then_decrypt_round_trip() {
    let mut service = WalletEncryptionService::new("master-1", b"0123456789abcdef0123456789abcdef");
    let record = service.encrypt_private_key("0xdeadbeef-private", "1234").unwrap();
    assert_eq!(record.master_key_identifier, "master-1");
    assert_eq!(record.algorithm, "AES-256-GCM");
    assert_eq!(record.user_id, "");
    assert_eq!(record.pin_salt.len(), 32);
    assert_eq!(record.pin_iv.len(), 24);
    let plain = service.decrypt_private_key(&record, "1234").unwrap();
    assert_eq!(plain, "0xdeadbeef-private");
}

#[test]
fn decrypt_without_cached_key_uses_master_key() {
    let mut service = WalletEncryptionService::new("m", b"master-key-bytes");
    let record = service.encrypt_private_key("secret key", "pin").unwrap();
    let mut fresh = WalletEncryptionService::new("m", b"master-key-bytes");
    assert_eq!(fresh.decrypt_private_key(&record, "pin").unwrap(), "secret key");
    assert_eq!(fresh.decrypt_private_key(&record, "pin").unwrap(), "secret key");
}

#[test]
fn wrong_pin_and_wrong_master() {
    let mut service = WalletEncryptionService::new("m", b"master");
    let record = service.encrypt_private_key("pk", "good").unwrap();
    match service.decrypt_private_key(&record, "bad") {
        Err(AppError::ValidationError(m)) => assert_eq!(m, "Invalid authentication tag"),
        _ => panic!("expected an error"),
    }
    let mut other = WalletEncryptionService::new("other", b"master");
    match other.decrypt_private_key(&record, "good") {
        Err(AppError::ValidationError(m)) => assert_eq!(m, "Invalid master key identifier"),
        _ => panic!("expected an error"),
    }
    let mut wrong_key = WalletEncryptionService::new("m", b"different");
    match wrong_key.decrypt_private_key(&record, "good") {
        Err(AppError::ValidationError(m)) => assert_eq!(m, "Invalid authentication tag"),
        _ => panic!("expected an error"),
    }
}

#[test]
fn corrupted_fields() {
    let mut service = WalletEncryptionService::new("m", b"master");
    let record = service.encrypt_private_key("pk", "pin").unwrap();
    let mut bad = record.clone();
    bad.encrypted_private_key = "zz".to_string();
    match service.decrypt_private_key(&bad, "pin") {
        Err(AppError::ValidationError(m)) => assert_eq!(m, "Invalid encrypted data format"),
        _ => panic!("expected an error"),
    }
    let mut bad = record.clone();
    bad.dek_id = "unknown".to_string();
    bad.encrypted_dek = "abc".to_string();
    match service.decrypt_private_key(&bad, "pin") {
        Err(AppError::ValidationError(m)) => assert_eq!(m, "Invalid DEK format"),
        _ => panic!("expected an error"),
    }
    let mut bad = record.clone();
    bad.pin_salt = "x".to_string();
    match service.decrypt_private_key(&bad, "pin") {
        Err(AppError::ValidationError(m)) => assert_eq!(m, "Invalid PIN salt format"),
        _ => panic!("expected an error"),
    }
    let mut bad = record;
    bad.encrypted_private_key = "00".to_string();
    match service.decrypt_private_key(&bad, "pin") {
        Err(AppError::ValidationError(m)) => assert_eq!(m, "Invalid ciphertext format"),
        _ => panic!("expected an error"),
    }
}

#[test]
fn sealing_is_deterministic_for_given_randomness() {
    let service = WalletEncryptionService::new("m", b"master");
    let a = service.seal_private_key("pk", "pin", &[1; 16], &[2; 12], &[3; 32], &[4; 12], &[5; 12], "id-1");
    let b = service.seal_private_key("pk", "pin", &[1; 16], &[2; 12], &[3; 32], &[4; 12], &[5; 12], "id-1");
    assert_eq!(a.encrypted_private_key, b.encrypted_private_key);
    assert_eq!(a.pin_salt, "01010101010101010101010101010101");
    assert_eq!(a.dek_id, "id-1");
    assert_ne!(a.encrypted_dek, a.encrypted_private_key);
}

#[test]
fn checked_decrypt_reports_empty_keys() {
    let mut service = WalletEncryptionService::new("m", b"master");
    let record = service.encrypt_private_key("pk", "pin").unwrap();
    assert_eq!(service.decrypt_private_key_checked(&record, "pin").unwrap().unwrap(), "pk");
}

#[test]
fn dek_cache_keeps_last_value() {
    let mut cache = DekCache::new();
    assert!(cache.get("a").is_none());
    cache.set("a".to_string(), vec![1, 2]);
    cache.set("a".to_string(), vec![3]);
    assert_eq!(cache.get("a"), Some(vec![3]));
}

#[test]
fn records_from_fields() {
    let names = [
        "user_id", "encrypted_private_key", "encrypted_dek", "master_key_identifier", "dek_id", "algorithm",
        "pin_salt", "pin_iv", "dek_iv", "master_iv",
    ];
    let mut pairs: Vec<(&str, &str)> = names.iter().map(|n| (*n, "v")).collect();
    pairs.push(("user_id", "u-2"));
    pairs.push(("extra", "ignored"));
    let record = WalletEncryptedData::from_field_entries(&entries(&pairs)).unwrap();
    assert_eq!(record.user_id, "u-2");
    assert_eq!(record.master_iv, "v");
    let missing = entries(&pairs[1..]);
    let only_later_user = WalletEncryptedData::from_field_entries(&missing).unwrap();
    assert_eq!(only_later_user.user_id, "u-2");
    match WalletEncryptedData::from_field_entries(&entries(&pairs[..9])) {
        Err(AppError::ValidationError(m)) => assert_eq!(m, "Invalid encrypted data format"),
        _ => panic!("expected an error"),
    }
    let tagged = record.with_user_id("owner");
    assert_eq!(tagged.user_id, "owner");
}

#[test]
fn field_entries_round_trip() {
    let mut service = WalletEncryptionService::new("master-1", b"0123456789abcdef0123456789abcdef");
    let record = service.encrypt_private_key("0xabc", "9876").unwrap().with_user_id("user-7");
    let fields = record.to_field_entries();
    assert_eq!(fields.len(), 10);
    assert_eq!(fields[0], ("user_id".to_string(), "user-7".to_string()));
    let back = WalletEncryptedData::from_field_entries(&fields).unwrap();
    assert_eq!(back.user_id, "user-7");
    assert_eq!(back.encrypted_private_key, record.encrypted_private_key);
    assert_eq!(back.master_iv, record.master_iv);
    assert_eq!(service.decrypt_private_key(&back, "9876").unwrap(), "0xabc");
}
