use apiodactyl::auth::{AdminUser, AuthService, BootstrapAction, CacheLookup, User};
use apiodactyl::cache::{ApiKeyCache, CACHE_TTL_MS};
use apiodactyl::errors::{AuthError, StoreError};
use apiodactyl::models::ApiKey;
use mongodb::bson::oid::ObjectId;

fn sample_key(hash: &str, is_admin: bool) -> ApiKey {
    ApiKey {
        oid: ObjectId::new(),
        key_hash: hash.to_string(),
        is_admin,
        created_at: chrono::Utc::now().naive_utc(),
        last_used_at: None,
    }
}

#[test]
fn test_api_key_hashing() {
    let key1 = "test_key_123";
    let key2 = "test_key_456";
    let key1_duplicate = "test_key_123";

    let hash1 = AuthService::hash_api_key(key1);
    let hash2 = AuthService::hash_api_key(key2);
    let hash1_dup = AuthService::hash_api_key(key1_duplicate);

    assert_eq!(hash1, hash1_dup);
    assert_ne!(hash1, hash2);
    assert_eq!(hash1.len(), 64);
    assert_eq!(hash2.len(), 64);
}

#[test]
fn hash_is_sha256_in_lowercase_hex() {
    assert_eq!(
        AuthService::hash_api_key(""),
        "e3b0c44298fc1c149afbf4c8996fb92427ae41e4649b934ca495991b7852b855"
    );
    assert_eq!(
        AuthService::hash_api_key("abc"),
        "ba7816bf8f01cfea414140de5dae2223b00361a396177a9cb410ff61f20015ad"
    );
    let h = AuthService::hash_api_key("Bearer token with spaces");
    assert!(h.chars().all(|c| c.is_ascii_digit() || ('a'..='f').contains(&c)));
}

#[test]
fn test_generate_api_key_format() {
    let key = AuthService::generate_api_key();

    assert!(key.starts_with("ak_"));
    assert_eq!(key.len(), 35);
}

#[test]
fn generated_keys_differ_and_are_hex() {
    let a = AuthService::generate_api_key();
    let b = AuthService::generate_api_key();
    assert_ne!(a, b);
    assert!(a[3..].chars().all(|c| c.is_ascii_digit() || ('a'..='f').contains(&c)));
}

#[test]
fn test_user_admin_check() {
    let admin_key = sample_key("hash1", true);
    let regular_key = sample_key("hash2", false);

    let admin_user = User { api_key: admin_key };
    let regular_user = User {
        api_key: regular_key,
    };

    assert!(admin_user.is_admin());
    assert!(!regular_user.is_admin());

    assert!(admin_user.require_admin().is_ok());
    assert!(regular_user.require_admin().is_err());
}

#[test]
fn test_api_key_cache_operations() {
    let mut cache = ApiKeyCache::new();
    let now: u64 = 1_000;

    let api_key = sample_key("test_hash", false);

    assert!(cache.get("test_hash", now).is_none());
    cache.insert("test_hash".to_string(), api_key.clone(), now);
    let cached = cache.get("test_hash", now);
    assert!(cached.is_some());
    assert_eq!(cached.unwrap().key_hash, "test_hash");
    cache.remove("test_hash");
    assert!(cache.get("test_hash", now).is_none());
}

#[test]
fn cache_entry_expires_after_ttl() {
    let mut cache = ApiKeyCache::new();
    cache.insert("h".to_string(), sample_key("h", false), 10);
    assert!(cache.get("h", 10 + CACHE_TTL_MS - 1).is_some());
    assert!(cache.get("h", 10 + CACHE_TTL_MS).is_none());
    // a reading earlier than the insertion counts as age zero
    assert!(cache.get("h", 0).is_some());
}

#[test]
fn cache_cleanup_drops_stale_and_keeps_fresh() {
    let mut cache = ApiKeyCache::new();
    let now: u64 = 2 * CACHE_TTL_MS;
    cache.insert("old".to_string(), sample_key("old", false), now - CACHE_TTL_MS - 1);
    cache.insert("new".to_string(), sample_key("new", true), now);
    cache.cleanup_expired(now);
    assert!(cache.get("old", 0).is_none());
    let kept = cache.get("new", now).unwrap();
    assert!(kept.is_admin);
}

#[test]
fn cache_insert_replaces_and_remove_absent_is_noop() {
    let mut cache = ApiKeyCache::new();
    cache.remove("missing");
    cache.insert("h".to_string(), sample_key("h", false), 5);
    cache.insert("h".to_string(), sample_key("h", true), 6);
    assert!(cache.get("h", 6).unwrap().is_admin);
    cache.remove("h");
    assert!(cache.get("h", 6).is_none());
}

#[test]
fn test_bearer_token_extraction() {
    let valid = "Bearer ak_12345678";
    assert_eq!(
        AuthService::extract_bearer_token(valid).unwrap(),
        "ak_12345678"
    );

    assert!(AuthService::extract_bearer_token("ak_12345678").is_err());
    assert!(AuthService::extract_bearer_token("bearer ak_12345678").is_err());
    assert!(AuthService::extract_bearer_token("Basic ak_12345678").is_err());
    assert!(AuthService::extract_bearer_token("").is_err());
}

#[test]
fn header_failures_are_typed() {
    assert_eq!(
        AuthService::token_from_header(None),
        Err(AuthError::MissingHeader)
    );
    assert_eq!(
        AuthService::token_from_header(Some("bearer abc")),
        Err(AuthError::InvalidFormat)
    );
    assert_eq!(
        AuthService::token_from_header(Some("Basic abc")),
        Err(AuthError::InvalidFormat)
    );
    assert_eq!(
        AuthService::token_from_header(Some("")),
        Err(AuthError::InvalidFormat)
    );
    assert_eq!(AuthService::token_from_header(Some("Bearer abc")), Ok("abc"));
    assert_eq!(AuthService::token_from_header(Some("Bearer ")), Ok(""));
}

#[test]
fn unregistered_bearer_token_is_invalid_key() {
    let mut service = AuthService::new();
    let token = AuthService::token_from_header(Some("Bearer abc")).unwrap();
    let hash = match service.validate_api_key(token, 0) {
        CacheLookup::Miss(h) => h,
        CacheLookup::Hit(_) => panic!("empty cache cannot hit"),
    };
    assert_eq!(hash, AuthService::hash_api_key("abc"));
    let outcome = service.complete_validation(hash, Ok(None), 0);
    assert_eq!(outcome.unwrap_err(), AuthError::InvalidKey);
}

#[test]
fn store_failure_during_validation_is_database() {
    let mut service = AuthService::new();
    let hash = AuthService::hash_api_key("k");
    let outcome = service.complete_validation(hash, Err(StoreError), 0);
    assert_eq!(outcome.unwrap_err(), AuthError::Database);
    assert!(matches!(service.validate_api_key("k", 0), CacheLookup::Miss(_)));
}

#[test]
fn created_key_validates_to_same_record() {
    let mut service = AuthService::new();
    let record = AuthService::prepare_api_key("k", false);
    let id = record.oid;
    let created = service.create_api_key(record, Ok(()), 100).unwrap();
    assert_eq!(created.oid, id);
    assert_eq!(created.key_hash, AuthService::hash_api_key("k"));
    match service.validate_api_key("k", 200) {
        CacheLookup::Hit(k) => {
            assert_eq!(k.oid, id);
            assert!(!k.is_admin);
        }
        CacheLookup::Miss(_) => panic!("a created key is cached"),
    }
}

#[test]
fn store_hit_is_cached_for_next_lookup() {
    let mut service = AuthService::new();
    let stored = AuthService::api_key_record(
        "k",
        false,
        ObjectId::new(),
        chrono::Utc::now().naive_utc(),
    );
    let id = stored.oid;
    let hash = match service.validate_api_key("k", 0) {
        CacheLookup::Miss(h) => h,
        CacheLookup::Hit(_) => panic!("empty cache cannot hit"),
    };
    let found = service.complete_validation(hash, Ok(Some(stored)), 0).unwrap();
    assert_eq!(found.oid, id);
    assert!(matches!(service.validate_api_key("k", 1), CacheLookup::Hit(k) if k.oid == id));
}

#[test]
fn failed_creation_is_not_cached() {
    let mut service = AuthService::new();
    let record = AuthService::prepare_api_key("k", true);
    let outcome = service.create_api_key(record, Err(StoreError), 0);
    assert_eq!(outcome.unwrap_err(), AuthError::Database);
    assert!(matches!(service.validate_api_key("k", 0), CacheLookup::Miss(_)));
}

#[test]
fn revoked_key_stops_validating_at_once() {
    let mut service = AuthService::new();
    let record = AuthService::prepare_api_key("k", true);
    service.create_api_key(record, Ok(()), 0).unwrap();
    assert!(matches!(service.validate_api_key("k", 1), CacheLookup::Hit(_)));
    let hash = AuthService::hash_api_key("k");
    assert_eq!(service.revoke_api_key(&hash, Ok(())), Ok(()));
    let miss = match service.validate_api_key("k", 2) {
        CacheLookup::Miss(h) => h,
        CacheLookup::Hit(_) => panic!("revoked key still cached"),
    };
    let outcome = service.complete_validation(miss, Ok(None), 2);
    assert_eq!(outcome.unwrap_err(), AuthError::InvalidKey);
}

#[test]
fn revoke_purges_cache_even_when_store_fails() {
    let mut service = AuthService::new();
    let record = AuthService::prepare_api_key("k", false);
    service.create_api_key(record, Ok(()), 0).unwrap();
    let hash = AuthService::hash_api_key("k");
    assert_eq!(
        service.revoke_api_key(&hash, Err(StoreError)),
        Err(AuthError::Database)
    );
    assert!(matches!(service.validate_api_key("k", 0), CacheLookup::Miss(_)));
}

#[test]
fn service_cleanup_drops_stale_entries() {
    let mut service = AuthService::new();
    let record = AuthService::prepare_api_key("k", false);
    service.create_api_key(record, Ok(()), 0).unwrap();
    service.cleanup_cache(CACHE_TTL_MS);
    assert!(matches!(service.validate_api_key("k", 0), CacheLookup::Miss(_)));
}

#[test]
fn principal_capability_checks() {
    let regular = User {
        api_key: sample_key("r", false),
    };
    assert_eq!(
        regular.require_admin(),
        Err(AuthError::InsufficientPermissions)
    );
    assert!(matches!(
        AdminUser::from_user(regular.clone()),
        Err(AuthError::InsufficientPermissions)
    ));

    let admin = User {
        api_key: sample_key("a", true),
    };
    let promoted = AdminUser::from_user(admin.clone()).ok().unwrap();
    assert_eq!(promoted.id(), admin.id());
    assert!(promoted.require_admin().is_ok());
    assert_eq!(promoted.as_api_key().key_hash, "a");
    assert_eq!(promoted.created_at(), admin.created_at());
    assert_eq!(promoted.last_used_at(), None);
    assert!(promoted.user().is_admin());
}

#[test]
fn validation_result_becomes_principal() {
    let user = User::from_validation(Ok(sample_key("h", true))).unwrap();
    assert!(user.is_admin());
    assert!(matches!(
        User::from_validation(Err(AuthError::InvalidKey)),
        Err(AuthError::InvalidKey)
    ));
}

#[test]
fn test_admin_user_deref() {
    let api_key = sample_key("hash", true);

    let user = User { api_key };
    let admin_user = AdminUser::from_user(user.clone()).ok().unwrap();

    assert_eq!(admin_user.id(), user.id());
    assert_eq!(admin_user.is_admin(), user.is_admin());
}

#[test]
fn bootstrap_decisions() {
    assert!(matches!(
        AuthService::ensure_admin_exists(Ok(1), Some("secret".to_string())),
        Ok(BootstrapAction::AdminExists)
    ));
    assert!(matches!(
        AuthService::ensure_admin_exists(Ok(1), None),
        Ok(BootstrapAction::AdminExists)
    ));
    assert!(matches!(
        AuthService::ensure_admin_exists(Ok(0), Some("secret".to_string())),
        Ok(BootstrapAction::CreateAdmin(k)) if k == "secret"
    ));
    assert!(matches!(
        AuthService::ensure_admin_exists(Ok(0), None),
        Ok(BootstrapAction::NoBootstrapKey)
    ));
    assert!(matches!(
        AuthService::ensure_admin_exists(Err(StoreError), Some("secret".to_string())),
        Err(AuthError::Database)
    ));
}

#[test]
fn bootstrap_twice_with_an_admin_writes_nothing() {
    for _ in 0..2 {
        let action = AuthService::ensure_admin_exists(Ok(1), Some("secret".to_string()));
        assert!(!matches!(action, Ok(BootstrapAction::CreateAdmin(_))));
    }
}

#[test]
fn listing_fails_on_any_store_error() {
    let ok = vec![Ok(sample_key("a", true)), Ok(sample_key("b", false))];
    let listed = AuthService::list_api_keys(&ok).unwrap();
    assert_eq!(listed.len(), 2);
    assert_eq!(listed[0].key_hash, "a");
    assert_eq!(listed[1].key_hash, "b");
    assert!(AuthService::list_api_keys(&Vec::new()).unwrap().is_empty());

    let broken = vec![Ok(sample_key("a", true)), Err(StoreError)];
    assert!(matches!(
        AuthService::list_api_keys(&broken),
        Err(AuthError::Database)
    ));
}

#[test]
fn last_used_update_outcome() {
    assert_eq!(AuthService::update_last_used(Ok(())), Ok(()));
    assert_eq!(
        AuthService::update_last_used(Err(StoreError)),
        Err(AuthError::Database)
    );
}

#[test]
fn admin_keys_are_counted_and_listed_in_order() {
    let keys = vec![
        sample_key("a", true),
        sample_key("b", false),
        sample_key("c", true),
    ];
    assert_eq!(AuthService::count_admins(&keys), 2);
    let admins = AuthService::admin_keys(&keys);
    assert_eq!(admins.len(), 2);
    assert_eq!(admins[0].key_hash, "a");
    assert_eq!(admins[1].key_hash, "c");
    assert_eq!(AuthService::count_admins(&Vec::new()), 0);
}
