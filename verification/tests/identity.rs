use std::time::{SystemTime, UNIX_EPOCH};

use keystone_verified::auth::{AuthenticationContext, AuthenticationError, IdentityInfo};
use keystone_verified::config::{Config, SecurityComplianceProvider};
use keystone_verified::identity::{Domain, UserOptions, UserPasswordAuthRequest, UserResponse};
use keystone_verified::identity_service::{
    complete_user_create, check_user_update, prepare_password_auth, prepare_user_create,
    with_found_domain, DomainIdLookup, IdentityProviderError, PasswordAuthLookup,
    ResourceProviderError,
    UserCreate, UserDomainCache, UserUpdate,
};
use keystone_verified::password_auth::{
    begin_password_auth, finish_password_auth, int_text_exec, on_main_entry, on_user_options,
    refuse_unknown_user, should_lock, FoundUser, LocalUserRecord, LockDecision, PasswordAuthStep,
    PasswordRecord, UserRecord,
};
use keystone_verified::password_hashing::{hash_password, PasswordHashError};
use keystone_verified::config::SecurityComplianceError;

fn now() -> i64 {
    SystemTime::now().duration_since(UNIX_EPOCH).unwrap().as_secs() as i64
}

fn local_user(count: Option<i32>, at: Option<i64>) -> LocalUserRecord {
    LocalUserRecord {
        id: 1,
        user_id: "user_id".into(),
        domain_id: "foo_domain".into(),
        name: "foo_domain".into(),
        failed_auth_count: count,
        failed_auth_at: at,
    }
}

fn lockout_config() -> SecurityComplianceProvider {
    SecurityComplianceProvider {
        lockout_failure_attempts: Some(5),
        ..Default::default()
    }
}

#[test]
fn test_should_lock_default_config() {
    let config = Config::default();
    assert_eq!(
        should_lock(&config.security_compliance, &local_user(Some(10), Some(now())), now()),
        LockDecision::Unlocked,
        "Default config does not request any validation and user is not considered locked"
    );
}

#[test]
fn test_should_lock_no_failed_auth_count() {
    let sc = lockout_config();
    assert_eq!(should_lock(&sc, &local_user(None, None), now()), LockDecision::Unlocked);
    assert_eq!(should_lock(&sc, &local_user(None, Some(now())), now()), LockDecision::Unlocked);
}

#[test]
fn test_should_lock_no_failed_auth_at() {
    let sc = lockout_config();
    assert_eq!(
        should_lock(&sc, &local_user(Some(10), None), now()),
        LockDecision::ResetThenUnlocked,
        "User with unset failed_auth_at props is not considered locked and auth reset"
    );
}

#[test]
fn test_should_lock_expired() {
    let mut sc = lockout_config();
    sc.lockout_duration = Some(100);
    let t = now();
    assert_eq!(
        should_lock(&sc, &local_user(Some(10), Some(t - 101)), t),
        LockDecision::ResetThenUnlocked,
        "User with unset expired protection is unlocked"
    );
}

#[test]
fn test_should_lock_lock() {
    let sc = lockout_config();
    let t = now();
    assert_eq!(should_lock(&sc, &local_user(Some(10), Some(t)), t), LockDecision::Locked);
    assert_eq!(should_lock(&sc, &local_user(Some(5), Some(t)), t), LockDecision::Locked);
    assert_eq!(should_lock(&sc, &local_user(Some(4), Some(t)), t), LockDecision::Unlocked);
}

#[test]
fn lock_without_duration_is_permanent() {
    let mut sc = lockout_config();
    sc.lockout_duration = None;
    assert_eq!(should_lock(&sc, &local_user(Some(5), None), now()), LockDecision::Locked);
}

fn found(password_hash: Option<String>, expires_at: Option<i64>) -> FoundUser {
    FoundUser {
        local_user: local_user(None, None),
        passwords: vec![PasswordRecord {
            id: 7,
            password_hash,
            expires_at,
        }],
    }
}

fn enabled_user() -> Option<UserRecord> {
    Some(UserRecord {
        id: "user_id".into(),
        enabled: Some(true),
    })
}

fn user_response() -> UserResponse {
    UserResponse {
        default_project_id: None,
        domain_id: "foo_domain".into(),
        enabled: true,
        federated: None,
        id: "user_id".into(),
        name: "foo_domain".into(),
        options: UserOptions::empty(),
        password_expires_at: None,
    }
}

fn failed_with(step: PasswordAuthStep) -> IdentityProviderError {
    match step {
        PasswordAuthStep::Failed(e) => e,
        _ => panic!("expected a failure"),
    }
}

#[test]
fn test_authenticate() {
    let config = Config::default();
    let hash = hash_password(&config, b"pass").unwrap();
    let step = begin_password_auth(Some(found(Some(hash), None)));
    let f = match step {
        PasswordAuthStep::LoadOptions(f) => f,
        _ => panic!("options are loaded next"),
    };
    let (f, o) = match on_user_options(f, UserOptions::empty(), &config.security_compliance, now()) {
        PasswordAuthStep::LoadMainEntry { found, options, reset_failed_auth } => {
            assert!(!reset_failed_auth);
            (found, options)
        }
        _ => panic!("main entry is loaded next"),
    };
    match on_main_entry(&config, b"pass", f, o, enabled_user(), now()) {
        PasswordAuthStep::ResetLastActive { .. } => {}
        _ => panic!("authentication should succeed"),
    }
    let res = finish_password_auth(user_response());
    assert!(matches!(res.context, AuthenticationContext::Password));
    match &res.principal.identity {
        IdentityInfo::User(u) => {
            assert_eq!(u.user_id, "user_id");
            assert_eq!(u.user.as_ref().unwrap().id, "user_id");
        }
        _ => panic!("user principal expected"),
    }
    assert_eq!(res.audit_id.len(), 22);
}

#[test]
fn test_authenticate_locked_user() {
    let config = Config {
        security_compliance: lockout_config(),
        ..Default::default()
    };
    let mut f = found(None, None);
    f.local_user.failed_auth_count = Some(10);
    f.local_user.failed_auth_at = Some(now());
    match failed_with(on_user_options(f, UserOptions::empty(), &config.security_compliance, now())) {
        IdentityProviderError::Authentication {
            source: AuthenticationError::UserLocked(user_id),
        } => assert_eq!(user_id, "user_id"),
        other => panic!("unexpected {:?}", other),
    }
}

#[test]
fn test_authenticate_locked_user_exempt() {
    let config = Config {
        security_compliance: lockout_config(),
        ..Default::default()
    };
    let mut f = found(None, None);
    f.local_user.failed_auth_count = Some(10);
    f.local_user.failed_auth_at = Some(now());
    let mut options = UserOptions::empty();
    options.ignore_lockout_failure_attempts = Some(true);
    assert!(matches!(
        on_user_options(f, options, &config.security_compliance, now()),
        PasswordAuthStep::LoadMainEntry { reset_failed_auth: false, .. }
    ));
}

#[test]
fn test_authenticate_wrong_password() {
    let config = Config::default();
    let hash = hash_password(&config, b"foo_pass").unwrap();
    assert!(matches!(
        on_main_entry(&config, b"wrong", found(Some(hash), None), UserOptions::empty(), enabled_user(), now()),
        PasswordAuthStep::LogFailedAuth(_)
    ));
}

#[test]
fn test_authenticate_user_not_found() {
    let config = Config::default();
    assert!(matches!(begin_password_auth(None), PasswordAuthStep::VerifyDummy));
    let dummy = keystone_verified::password_hashing::generate_dummy_hash(&config);
    assert!(matches!(
        refuse_unknown_user(&config, b"pass", dummy),
        IdentityProviderError::Authentication {
            source: AuthenticationError::UserNameOrPasswordWrong
        }
    ));
    assert!(matches!(
        refuse_unknown_user(&config, b"pass", Err(PasswordHashError::CryptoHash("x".into()))),
        IdentityProviderError::PasswordHash { .. }
    ));
}

#[test]
fn test_authenticate_expired_password() {
    let config = Config::default();
    let hash = hash_password(&config, b"pass").unwrap();
    match failed_with(on_main_entry(
        &config,
        b"pass",
        found(Some(hash), Some(now() - 10)),
        UserOptions::empty(),
        enabled_user(),
        now(),
    )) {
        IdentityProviderError::Authentication {
            source: AuthenticationError::UserPasswordExpired(user_id),
        } => assert_eq!(user_id, "user_id"),
        other => panic!("unexpected {:?}", other),
    }
}

#[test]
fn test_authenticate_exempt_expired_password() {
    let config = Config::default();
    let hash = hash_password(&config, b"pass").unwrap();
    let mut options = UserOptions::empty();
    options.ignore_password_expiry = Some(true);
    assert!(matches!(
        on_main_entry(&config, b"pass", found(Some(hash), Some(now() - 10)), options, enabled_user(), now()),
        PasswordAuthStep::ResetLastActive { .. }
    ));
}

#[test]
fn main_entry_failures() {
    let config = Config::default();
    assert!(matches!(
        failed_with(on_main_entry(&config, b"p", found(None, None), UserOptions::empty(), None, now())),
        IdentityProviderError::NoMainUserEntry(u) if u == "user_id"
    ));
    let disabled = Some(UserRecord {
        id: "user_id".into(),
        enabled: None,
    });
    assert!(matches!(
        failed_with(on_main_entry(&config, b"p", found(None, None), UserOptions::empty(), disabled, now())),
        IdentityProviderError::Authentication {
            source: AuthenticationError::UserDisabled(_)
        }
    ));
    let mut none = found(None, None);
    none.passwords.clear();
    assert!(matches!(
        failed_with(on_main_entry(&config, b"p", none, UserOptions::empty(), enabled_user(), now())),
        IdentityProviderError::NoPasswordsForUser(_)
    ));
    assert!(matches!(
        failed_with(on_main_entry(&config, b"p", found(None, None), UserOptions::empty(), enabled_user(), now())),
        IdentityProviderError::NoPasswordHash(id) if id == "7"
    ));
}

#[test]
fn decimal_text() {
    assert_eq!(int_text_exec(0), "0");
    assert_eq!(int_text_exec(42), "42");
    assert_eq!(int_text_exec(-1203), "-1203");
    assert_eq!(int_text_exec(i32::MIN), i32::MIN.to_string());
    assert_eq!(int_text_exec(i32::MAX), i32::MAX.to_string());
}

fn user_create(password: Option<&str>) -> UserCreate {
    UserCreate {
        default_project_id: None,
        domain_id: "did".into(),
        enabled: None,
        extra: vec![],
        federated: None,
        id: None,
        name: "uname".into(),
        options: None,
        password: password.map(|p| p.to_string()),
    }
}

fn with_regex(pattern: &str) -> SecurityComplianceProvider {
    let mut sc = SecurityComplianceProvider {
        password_regex: Some(pattern.to_string()),
        ..Default::default()
    };
    sc.compile_regex().unwrap();
    sc
}

#[test]
fn create_user_defaults() {
    let u = prepare_user_create(user_create(None), &SecurityComplianceProvider::default()).unwrap();
    assert_eq!(u.enabled, Some(true));
    assert_eq!(u.id.as_ref().unwrap().len(), 32);
    let u = complete_user_create(user_create(None), "given".into(), &SecurityComplianceProvider::default()).unwrap();
    assert_eq!(u.id.as_deref(), Some("given"));
}

#[test]
fn test_create_user_password_regex_rejected() {
    let result = prepare_user_create(user_create(Some("short")), &with_regex(r"^.{7,}$"));
    assert!(
        matches!(
            result,
            Err(IdentityProviderError::SecurityCompliance(SecurityComplianceError::PasswordInvalid(_)))
        ),
        "expected SecurityCompliance error for invalid password"
    );
}

#[test]
fn test_create_user_password_regex_accepted() {
    assert!(
        prepare_user_create(user_create(Some("Abc1")), &with_regex(r"^.{3,}$")).is_ok(),
        "password matching regex should reach backend"
    );
}

#[test]
fn test_create_user_no_password() {
    assert!(
        prepare_user_create(user_create(None), &with_regex(r"^.{7,}$")).is_ok(),
        "no password should skip validation"
    );
}

#[test]
fn create_user_validation_names_field() {
    let mut u = user_create(None);
    u.name = String::new();
    match complete_user_create(u, "id".into(), &SecurityComplianceProvider::default()) {
        Err(IdentityProviderError::Validation(f)) => assert_eq!(f, "name"),
        other => panic!("unexpected {:?}", other.is_ok()),
    }
    let mut u = user_create(Some(&"x".repeat(73)));
    u.domain_id = "d".repeat(65);
    match complete_user_create(u, "id".into(), &SecurityComplianceProvider::default()) {
        Err(IdentityProviderError::Validation(f)) => assert_eq!(f, "domain_id"),
        other => panic!("unexpected {:?}", other.is_ok()),
    }
}

fn user_update(password: Option<&str>) -> UserUpdate {
    UserUpdate {
        default_project_id: None,
        enabled: None,
        extra: vec![],
        federated: None,
        name: None,
        options: None,
        password: password.map(|p| p.to_string()),
    }
}

#[test]
fn test_update_user_password_regex_rejected() {
    let result = check_user_update(&user_update(Some("short")), &with_regex(r"^.{7,}$"));
    assert!(
        matches!(result, Err(IdentityProviderError::SecurityCompliance(..))),
        "expected SecurityCompliance error for invalid password on update"
    );
}

#[test]
fn test_update_user_password_regex_accepted() {
    assert!(
        check_user_update(&user_update(Some("Abc1")), &with_regex(r"^.{3,}$")).is_ok(),
        "password matching regex on update should reach backend"
    );
}

#[test]
fn test_update_user_no_password() {
    let mut u = user_update(None);
    u.name = Some("new_name".into());
    assert!(
        check_user_update(&u, &with_regex(r"^.{7,}$")).is_ok(),
        "no password on update should skip validation"
    );
}

#[test]
fn update_user_name_too_long() {
    let mut u = user_update(None);
    u.name = Some("n".repeat(256));
    assert!(matches!(
        check_user_update(&u, &SecurityComplianceProvider::default()),
        Err(IdentityProviderError::Validation(f)) if f == "name"
    ));
}

fn auth_request(id: Option<&str>, name: Option<&str>, domain: Option<(Option<&str>, Option<&str>)>) -> UserPasswordAuthRequest {
    UserPasswordAuthRequest {
        id: id.map(|s| s.to_string()),
        name: name.map(|s| s.to_string()),
        domain: domain.map(|(id, name)| Domain {
            id: id.map(|s| s.to_string()),
            name: name.map(|s| s.to_string()),
        }),
        password: "pass".into(),
    }
}

#[test]
fn password_auth_request_identifies_user() {
    assert!(matches!(
        prepare_password_auth(auth_request(Some("uid"), None, None)),
        Ok(PasswordAuthLookup::Ready(_))
    ));
    assert!(matches!(
        prepare_password_auth(auth_request(None, None, None)),
        Err(IdentityProviderError::UserIdOrNameWithDomain)
    ));
    assert!(matches!(
        prepare_password_auth(auth_request(None, Some("n"), None)),
        Err(IdentityProviderError::UserIdOrNameWithDomain)
    ));
    assert!(matches!(
        prepare_password_auth(auth_request(None, Some("n"), Some((None, None)))),
        Err(IdentityProviderError::UserIdOrNameWithDomain)
    ));
    assert!(matches!(
        prepare_password_auth(auth_request(None, Some("n"), Some((Some("did"), None)))),
        Ok(PasswordAuthLookup::Ready(_))
    ));
    match prepare_password_auth(auth_request(None, Some("n"), Some((None, Some("dname"))))) {
        Ok(PasswordAuthLookup::FindDomain { request, domain_name }) => {
            assert_eq!(domain_name, "dname");
            let done = with_found_domain(request, domain_name.clone(), Some("did".into())).unwrap();
            let d = done.domain.unwrap();
            assert_eq!(d.id.as_deref(), Some("did"));
            assert_eq!(d.name.as_deref(), Some("dname"));
        }
        _ => panic!("domain lookup expected"),
    }
    assert!(matches!(
        with_found_domain(auth_request(None, Some("n"), None), "x".into(), None),
        Err(IdentityProviderError::ResourceProvider {
            source: ResourceProviderError::DomainNotFound(n)
        }) if n == "x"
    ));
}

#[test]
fn user_domain_cache_map() {
    let mut cache = UserDomainCache::new();
    assert_eq!(cache.get("uid"), None);
    cache.insert("uid".into(), "did".into());
    assert_eq!(cache.get("uid").as_deref(), Some("did"));
    cache.insert("uid".into(), "did2".into());
    cache.insert("other".into(), "x".into());
    assert_eq!(cache.get("uid").as_deref(), Some("did2"));
    assert_eq!(cache.get("other").as_deref(), Some("x"));
    cache.remove("uid");
    assert_eq!(cache.get("uid"), None);
    assert_eq!(cache.get("other").as_deref(), Some("x"));
}

fn cached_domain_id(
    cache: &mut UserDomainCache,
    caching: bool,
    user_id: &str,
    backend_calls: &mut usize,
) -> Result<String, IdentityProviderError> {
    match cache.lookup_domain_id(caching, user_id) {
        DomainIdLookup::Cached(d) => Ok(d),
        DomainIdLookup::AskBackend => {
            *backend_calls += 1;
            let answer = if user_id == "uid" {
                Ok("did".to_string())
            } else {
                Err(IdentityProviderError::UserNotFound(user_id.to_string()))
            };
            cache.on_backend_domain_id(caching, user_id, answer)
        }
    }
}

#[test]
fn test_get_user_domain_id() {
    let mut cache = UserDomainCache::new();
    let mut calls = 0;
    assert_eq!(cached_domain_id(&mut cache, true, "uid", &mut calls).unwrap(), "did");
    assert_eq!(
        cached_domain_id(&mut cache, true, "uid", &mut calls).unwrap(),
        "did",
        "second time data extracted from cache"
    );
    assert!(cached_domain_id(&mut cache, true, "missing", &mut calls).is_err());
    assert_eq!(cache.get("missing"), None);
    assert_eq!(
        cached_domain_id(&mut cache, false, "uid", &mut calls).unwrap(),
        "did",
        "third time backend is again triggered causing total of 2 invocations"
    );
    assert_eq!(calls, 3, "uid reached the backend twice, missing once");
}

#[test]
fn user_cache_follows_fetch_and_delete() {
    let mut cache = UserDomainCache::new();
    cache.on_user_fetched(false, "uid", &Some(user_response()));
    assert_eq!(cache.get("uid"), None);
    cache.on_user_fetched(true, "uid", &Some(user_response()));
    assert_eq!(cache.get("uid").as_deref(), Some(user_response().domain_id.as_str()));
    cache.on_user_fetched(true, "other", &None);
    assert_eq!(cache.get("other"), None);
    cache.on_user_deleted(false, "uid");
    assert!(cache.get("uid").is_some());
    cache.on_user_deleted(true, "uid");
    assert_eq!(cache.get("uid"), None);
}
