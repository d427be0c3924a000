use b2_operator::cache::{AuthorizationCache, TimestampedAuthorization};
use b2_operator::crds::{AccountSecretReference, AccountSpec};
use b2_operator::policy::{
    backoff_delay_secs, classify, error_policy, AuthFailure, Category, ServiceErrorKind,
};
use b2_operator::reconcile::{complete_authorization, reconcile_account, Step};
use b2_operator::secret::{decode, get_b2_credentials_from_secret, ResolveError};

fn reference() -> AccountSecretReference {
    AccountSecretReference {
        name: "test-credentials".to_string(),
        namespace: "default".to_string(),
        key_id_field: "key_id".to_string(),
        application_key_field: "application_key".to_string(),
    }
}

fn entry(k: &str, v: &[u8]) -> (String, Vec<u8>) {
    (k.to_string(), v.to_vec())
}

fn secret(key_id: &str, application_key: &str) -> Vec<(String, Vec<u8>)> {
    vec![
        entry("application_key", application_key.as_bytes()),
        entry("key_id", key_id.as_bytes()),
    ]
}

#[test]
fn resolves_both_fields_verbatim() {
    let c = get_b2_credentials_from_secret(&reference(), &secret("abc", "xyz")).unwrap();
    assert_eq!(c.key_id, "abc");
    assert_eq!(c.application_key, "xyz");
}

#[test]
fn resolves_non_ascii_text() {
    let c = get_b2_credentials_from_secret(&reference(), &secret("clé", "größe")).unwrap();
    assert_eq!(c.key_id, "clé");
    assert_eq!(c.application_key, "größe");
}

#[test]
fn missing_key_id_field_is_reported() {
    let data = vec![entry("application_key", b"xyz")];
    let r = get_b2_credentials_from_secret(&reference(), &data);
    assert_eq!(r.unwrap_err(), ResolveError::FieldNotFound("key_id".to_string()));
}

#[test]
fn missing_application_key_field_is_reported() {
    let data = vec![entry("key_id", b"abc")];
    let r = get_b2_credentials_from_secret(&reference(), &data);
    assert_eq!(r.unwrap_err(), ResolveError::FieldNotFound("application_key".to_string()));
}

#[test]
fn empty_secret_lacks_key_id() {
    let r = get_b2_credentials_from_secret(&reference(), &Vec::new());
    assert_eq!(r.unwrap_err(), ResolveError::FieldNotFound("key_id".to_string()));
}

#[test]
fn binary_value_in_unrelated_field_fails() {
    let mut data = secret("abc", "xyz");
    data.push(entry("other", &[0xff, 0xfe, 0x00]));
    let r = get_b2_credentials_from_secret(&reference(), &data);
    assert_eq!(r.unwrap_err(), ResolveError::NonUtf8Value);
}

#[test]
fn binary_value_wins_over_missing_field() {
    let data = vec![entry("other", &[0xc3, 0x28])];
    let r = get_b2_credentials_from_secret(&reference(), &data);
    assert_eq!(r.unwrap_err(), ResolveError::NonUtf8Value);
}

#[test]
fn decode_turns_bytes_into_text() {
    let d = decode(&vec![entry("a", b"hello"), entry("b", "\u{e9}".as_bytes()), entry("c", b"")])
        .unwrap();
    assert_eq!(d.len(), 3);
    assert_eq!(d[0], ("a".to_string(), "hello".to_string()));
    assert_eq!(d[1], ("b".to_string(), "\u{e9}".to_string()));
    assert_eq!(d[2], ("c".to_string(), String::new()));
}

#[test]
fn backoff_table() {
    assert_eq!(backoff_delay_secs(Category::Success), 1);
    assert_eq!(backoff_delay_secs(Category::TransportError), 30);
    assert_eq!(backoff_delay_secs(Category::UnauthorizedError), 300);
    assert_eq!(backoff_delay_secs(Category::OtherServiceError), 60);
    assert_eq!(backoff_delay_secs(Category::UnknownError), 60);
}

#[test]
fn classifier_table() {
    assert_eq!(classify::<u8>(&Ok(1)), Category::Success);
    assert_eq!(classify::<u8>(&Err(AuthFailure::Transport)), Category::TransportError);
    assert_eq!(
        classify::<u8>(&Err(AuthFailure::Service(ServiceErrorKind::Unauthorized))),
        Category::UnauthorizedError
    );
    assert_eq!(
        classify::<u8>(&Err(AuthFailure::Service(ServiceErrorKind::Other))),
        Category::OtherServiceError
    );
    assert_eq!(classify::<u8>(&Err(AuthFailure::Unknown)), Category::UnknownError);
}

#[test]
fn error_policy_retries_after_one_second() {
    assert_eq!(error_policy().requeue_after_secs, 1);
}

#[test]
fn timestamped_authorization_keeps_its_parts() {
    let t = TimestampedAuthorization::new("handle", 42);
    assert_eq!(t.authorization, "handle");
    assert_eq!(t.creation_time, 42);
}

#[test]
fn second_success_for_same_key_keeps_one_entry() {
    let mut cache: AuthorizationCache<u32> = AuthorizationCache::new();
    let a = complete_authorization(&mut cache, "abc".to_string(), Ok(1), 10);
    let b = complete_authorization(&mut cache, "abc".to_string(), Ok(2), 20);
    assert_eq!(a.requeue_after_secs, 1);
    assert_eq!(b.requeue_after_secs, 1);
    assert!(cache.contains_key(&"abc".to_string()));
    assert!(!cache.contains_key(&"xyz".to_string()));
    assert_eq!(cache.len(), 1);
}

#[test]
fn failed_authorization_leaves_cache_empty() {
    let mut cache: AuthorizationCache<u32> = AuthorizationCache::new();
    let a = complete_authorization(
        &mut cache,
        "abc".to_string(),
        Err(AuthFailure::Service(ServiceErrorKind::Unauthorized)),
        10,
    );
    assert_eq!(a.requeue_after_secs, 300);
    assert!(!cache.contains_key(&"abc".to_string()));
    let t = complete_authorization(&mut cache, "abc".to_string(), Err(AuthFailure::Transport), 10);
    assert_eq!(t.requeue_after_secs, 30);
    let u = complete_authorization(&mut cache, "abc".to_string(), Err(AuthFailure::Unknown), 10);
    assert_eq!(u.requeue_after_secs, 60);
    assert!(!cache.contains_key(&"abc".to_string()));
    assert_eq!(cache.len(), 0);
}

#[test]
fn cache_hit_skips_authorize() {
    let spec = AccountSpec { credential_reference: reference() };
    let mut cache: AuthorizationCache<u32> = AuthorizationCache::new();
    cache.insert("abc".to_string(), TimestampedAuthorization::new(7, 0));
    match reconcile_account(&spec, &secret("abc", "xyz"), &cache).unwrap() {
        Step::Requeue(a) => assert_eq!(a.requeue_after_secs, 300),
        Step::Authorize(_) => panic!("authorize asked for a cached key id"),
    }
}

#[test]
fn distinct_key_ids_each_get_an_entry() {
    let spec = AccountSpec { credential_reference: reference() };
    let mut cache: AuthorizationCache<usize> = AuthorizationCache::new();
    let keys = ["k0", "k1", "k2", "k3"];
    let mut pending = Vec::new();
    for k in keys.iter() {
        match reconcile_account(&spec, &secret(k, "app"), &cache).unwrap() {
            Step::Authorize(c) => pending.push(c),
            Step::Requeue(_) => panic!("unexpected cache hit"),
        }
    }
    for (i, c) in pending.into_iter().enumerate().rev() {
        let a = complete_authorization(&mut cache, c.key_id, Ok(i), 5);
        assert_eq!(a.requeue_after_secs, 1);
    }
    for k in keys.iter() {
        assert!(cache.contains_key(&k.to_string()));
    }
    assert_eq!(cache.len(), 4);
}

#[test]
fn end_to_end_two_reconciliations() {
    let spec = AccountSpec { credential_reference: reference() };
    let data = secret("abc", "xyz");
    let mut cache: AuthorizationCache<&str> = AuthorizationCache::new();
    let first = reconcile_account(&spec, &data, &cache).unwrap();
    let credential = match first {
        Step::Authorize(c) => c,
        Step::Requeue(_) => panic!("empty cache reported a hit"),
    };
    assert_eq!(credential.key_id, "abc");
    assert_eq!(credential.application_key, "xyz");
    let action = complete_authorization(&mut cache, credential.key_id, Ok("handle"), 100);
    assert_eq!(action.requeue_after_secs, 1);
    assert!(cache.contains_key(&"abc".to_string()));
    assert_eq!(cache.len(), 1);
    match reconcile_account(&spec, &data, &cache).unwrap() {
        Step::Requeue(a) => assert_eq!(a.requeue_after_secs, 300),
        Step::Authorize(_) => panic!("authorize asked twice"),
    }
}

#[test]
fn reconcile_reports_resolution_errors() {
    let spec = AccountSpec { credential_reference: reference() };
    let cache: AuthorizationCache<u8> = AuthorizationCache::new();
    let r = reconcile_account(&spec, &vec![entry("key_id", &[0x80])], &cache);
    assert_eq!(r.unwrap_err(), ResolveError::NonUtf8Value);
}
