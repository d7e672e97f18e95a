use keystone_verified::config::{
    AccountLockoutDuration, Config, IdentityProvider, InvalidPasswordHashReport, PasswordHashingAlgo,
    ReportInvalidPasswordHash, SecurityComplianceError, SecurityComplianceProvider,
    default_max_password_length, default_user_options_mapping,
};

fn with_regex(pattern: &str) -> SecurityComplianceProvider {
    SecurityComplianceProvider {
        password_regex: Some(pattern.to_string()),
        ..Default::default()
    }
}

#[test]
fn test_compile_regex_success() {
    let mut sc = with_regex(r"^.{3,}$");
    assert!(sc.compile_regex().is_ok());
    assert!(sc.password_regex_re.is_some());
}

#[test]
fn test_compile_regex_invalid() {
    let mut sc = with_regex("[invalid_regex");
    let result = sc.compile_regex();
    assert!(result.is_err());
    assert!(matches!(
        result,
        Err(SecurityComplianceError::InvalidRegex(_))
    ));
}

#[test]
fn test_compile_regex_none() {
    let mut sc = SecurityComplianceProvider::default();
    assert!(sc.compile_regex().is_ok());
    assert!(sc.password_regex_re.is_none());
}

#[test]
fn test_validate_password_matches() {
    let mut sc = with_regex(r"^.{3,}$");
    sc.compile_regex().unwrap();

    assert!(sc.validate_password("Abc1").is_ok());
}

#[test]
fn test_validate_password_fails_with_description() {
    let mut sc = SecurityComplianceProvider {
        password_regex: Some(r"^.{7,}$".to_string()),
        password_regex_description: Some("must be at least 7 characters long".to_string()),
        ..Default::default()
    };
    sc.compile_regex().unwrap();

    let result = sc.validate_password("short");
    assert!(result.is_err());
    match result {
        Err(SecurityComplianceError::PasswordInvalid(msg)) => {
            assert!(msg.contains("must be at least 7 characters"));
        }
        other => panic!("expected PasswordInvalid, got {:?}", other),
    }
}

#[test]
fn test_validate_password_fails_without_description() {
    let mut sc = with_regex(r"^.{10,}$");
    sc.compile_regex().unwrap();

    let result = sc.validate_password("short");
    assert!(result.is_err());
    match result {
        Err(SecurityComplianceError::PasswordInvalid(msg)) => {
            assert!(msg.contains("configured security policy"));
        }
        other => panic!("expected PasswordInvalid, got {:?}", other),
    }
}

#[test]
fn test_validate_password_no_regex_always_passes() {
    let sc = SecurityComplianceProvider::default();
    assert!(sc.validate_password("a").is_ok());
}

#[test]
fn test_validate_password_empty_string_fails() {
    let mut sc = with_regex(r"^.{1,}$");
    sc.compile_regex().unwrap();

    let result = sc.validate_password("");
    assert!(result.is_err());
    assert!(matches!(
        result,
        Err(SecurityComplianceError::PasswordInvalid(_))
    ));
}

#[test]
fn test_validate_password_complex_regex() {
    let mut sc = with_regex(r"^.*[a-zA-Z].*[0-9].*$");
    sc.compile_regex().unwrap();

    assert!(sc.validate_password("Abc1").is_ok());
    assert!(sc.validate_password("allletters").is_err());
    assert!(sc.validate_password("12345678").is_err());
}

#[test]
fn test_load_all_compiles_regex() {
    let mut cfg = SecurityComplianceProvider::default();
    // Default has no regex, so compile_regex is a no-op
    assert!(cfg.compile_regex().is_ok());
    assert!(cfg.password_regex_re.is_none());
}

#[test]
fn compiled_regex_keeps_its_pattern() {
    let mut sc = with_regex(r"^a+$");
    sc.compile_regex().unwrap();
    let re = sc.password_regex_re.as_ref().unwrap();
    assert_eq!(re.pattern(), r"^a+$");
    assert!(re.is_match("aaa"));
    assert!(!re.is_match("b"));
}

#[test]
fn identity_provider_defaults() {
    let idp = IdentityProvider::default();
    assert!(!idp.caching);
    assert_eq!(idp.driver, "sql");
    assert_eq!(idp.max_password_length, 4096);
    assert_eq!(idp.password_hashing_algorithm, PasswordHashingAlgo::Bcrypt);
    assert_eq!(idp.password_hash_rounds, None);
    assert_eq!(idp.user_options_id_name_mapping.len(), 7);
    assert_eq!(default_max_password_length(), 4096);
}

#[test]
fn default_user_options_mapping_entries() {
    let m = default_user_options_mapping();
    let expected = [
        ("1000", "ignore_change_password_upon_first_use"),
        ("1001", "ignore_password_expiry"),
        ("1002", "ignore_lockout_failure_attempts"),
        ("1003", "lock_password"),
        ("1004", "ignore_user_inactivity"),
        ("MFAR", "multi_factor_auth_rules"),
        ("MFAE", "multi_factor_auth_rules"),
    ];
    assert_eq!(m.len(), expected.len());
    for (got, (k, v)) in m.iter().zip(expected.iter()) {
        assert_eq!(got.0, *k);
        assert_eq!(got.1, *v);
    }
}

#[test]
fn security_compliance_defaults() {
    let sc = SecurityComplianceProvider::default();
    assert_eq!(sc.lockout_duration, Some(1800));
    assert_eq!(AccountLockoutDuration::default(), Some(1800));
    assert_eq!(sc.report_invalid_password_hash, vec![InvalidPasswordHashReport::Event]);
    assert_eq!(ReportInvalidPasswordHash::default(), vec![InvalidPasswordHashReport::Event]);
    assert_eq!(sc.minimum_password_age, 0);
    let conf = Config::default();
    assert_eq!(conf.identity.password_hashing_algorithm, PasswordHashingAlgo::Bcrypt);
}

#[test]
fn password_expires_at_adds_days() {
    let mut sc = SecurityComplianceProvider::default();
    assert_eq!(sc.get_password_expires_at(1000), None);
    sc.password_expires_days = Some(2);
    assert_eq!(sc.get_password_expires_at(1000), Some(1000 + 2 * 86400));
}

#[test]
fn last_activity_cutoff_day() {
    let mut sc = SecurityComplianceProvider::default();
    assert_eq!(sc.get_user_last_activity_cutof_date(100_000), None);
    sc.disable_user_account_days_inactive = Some(1);
    // 100000 s lies on day 1; one day before is day 0.
    assert_eq!(sc.get_user_last_activity_cutof_date(100_000), Some(0));
    // One second before the epoch lies on day -1.
    assert_eq!(sc.get_user_last_activity_cutof_date(-1), Some(-2));
}
