//! Service configuration read by the library: identity provider settings,
//! password hashing choice and the security compliance policy.
use vstd::prelude::*;

verus! {

/// Password hashing algorithm.
#[derive(Clone, Copy, Debug, PartialEq, Eq, Structural)]
pub enum PasswordHashingAlgo {
    /// Bcrypt.
    Bcrypt,
    /// Bcrypt combined with SHA256.
    BcryptSha256,
    /// Scrypt.
    Scrypt,
    /// PBKDF2 with SHA512.
    Pbkdf2Sha512,
    /// No hashing: the password is stored as it is. Should not be used
    /// outside of testing where the expected value is necessary.
    Plaintext,
}

impl Default for PasswordHashingAlgo {
    fn default() -> (res: PasswordHashingAlgo)
        ensures
            res == PasswordHashingAlgo::Bcrypt,
    {
        PasswordHashingAlgo::Bcrypt
    }
}

/// The views of a list of string pairs.
pub open spec fn pair_views(v: Seq<(String, String)>) -> Seq<(Seq<char>, Seq<char>)> {
    v.map_values(|p: (String, String)| (p.0@, p.1@))
}

/// The user option id to name mapping used when none is configured.
pub open spec fn default_user_options_view() -> Seq<(Seq<char>, Seq<char>)> {
    seq![
        ("1000"@, "ignore_change_password_upon_first_use"@),
        ("1001"@, "ignore_password_expiry"@),
        ("1002"@, "ignore_lockout_failure_attempts"@),
        ("1003"@, "lock_password"@),
        ("1004"@, "ignore_user_inactivity"@),
        ("MFAR"@, "multi_factor_auth_rules"@),
        ("MFAE"@, "multi_factor_auth_rules"@),
    ]
}

fn string_pair(a: &str, b: &str) -> (res: (String, String))
    ensures
        res.0@ == a@,
        res.1@ == b@,
{
    (String::from_str(a), String::from_str(b))
}

/// The default mapping of user option ids to option names.
pub fn default_user_options_mapping() -> (res: Vec<(String, String)>)
    ensures
        pair_views(res@) == default_user_options_view(),
{
    let mut v: Vec<(String, String)> = Vec::new();
    v.push(string_pair("1000", "ignore_change_password_upon_first_use"));
    v.push(string_pair("1001", "ignore_password_expiry"));
    v.push(string_pair("1002", "ignore_lockout_failure_attempts"));
    v.push(string_pair("1003", "lock_password"));
    v.push(string_pair("1004", "ignore_user_inactivity"));
    v.push(string_pair("MFAR", "multi_factor_auth_rules"));
    v.push(string_pair("MFAE", "multi_factor_auth_rules"));
    assert(pair_views(v@) =~= default_user_options_view());
    v
}

/// The default maximal password length.
pub fn default_max_password_length() -> (res: usize)
    ensures
        res == 4096,
{
    4096
}

/// Identity provider.
pub struct IdentityProvider {
    /// Caching.
    pub caching: bool,
    /// Identity provider driver.
    pub driver: String,
    /// Maximal password length.
    pub max_password_length: usize,
    /// Default password hashing algorithm.
    pub password_hashing_algorithm: PasswordHashingAlgo,
    /// Default number of password hashing rounds.
    pub password_hash_rounds: Option<usize>,
    /// User options id to name mapping, as (id, name) pairs.
    pub user_options_id_name_mapping: Vec<(String, String)>,
}

impl Default for IdentityProvider {
    fn default() -> (res: IdentityProvider)
        ensures
            !res.caching,
            res.driver@ == "sql"@,
            res.max_password_length == 4096,
            res.password_hashing_algorithm == PasswordHashingAlgo::Bcrypt,
            res.password_hash_rounds is None,
            pair_views(res.user_options_id_name_mapping@) == default_user_options_view(),
    {
        IdentityProvider {
            caching: false,
            driver: String::from_str("sql"),
            max_password_length: default_max_password_length(),
            password_hashing_algorithm: PasswordHashingAlgo::Bcrypt,
            password_hash_rounds: None,
            user_options_id_name_mapping: default_user_options_mapping(),
        }
    }
}

/// Where the hash of an invalid password is reported.
#[derive(Clone, Copy, Debug, PartialEq, Eq, Structural)]
pub enum InvalidPasswordHashReport {
    Event,
}

impl Default for InvalidPasswordHashReport {
    fn default() -> (res: InvalidPasswordHashReport)
        ensures
            res == InvalidPasswordHashReport::Event,
    {
        InvalidPasswordHashReport::Event
    }
}

/// The hash function used for reporting invalid passwords.
#[derive(Clone, Copy, Debug, PartialEq, Eq, Structural)]
pub enum InvalidPasswordHashMethod {
    Sha256,
}

impl Default for InvalidPasswordHashMethod {
    fn default() -> (res: InvalidPasswordHashMethod)
        ensures
            res == InvalidPasswordHashMethod::Sha256,
    {
        InvalidPasswordHashMethod::Sha256
    }
}

/// Default account lockout duration.
pub struct AccountLockoutDuration {}

impl AccountLockoutDuration {
    /// The lockout duration, in seconds, used when none is configured.
    pub fn default() -> (res: Option<i64>)
        ensures
            res == Some(1800i64),
    {
        Some(1800)
    }
}

/// Default reporting of invalid password hashes.
pub struct ReportInvalidPasswordHash {}

impl ReportInvalidPasswordHash {
    /// The reporting channels used when none are configured.
    pub fn default() -> (res: Vec<InvalidPasswordHashReport>)
        ensures
            res@ == seq![InvalidPasswordHashReport::Event],
    {
        let mut v: Vec<InvalidPasswordHashReport> = Vec::new();
        v.push(InvalidPasswordHashReport::Event);
        v
    }
}

#[verifier::external_type_specification]
#[verifier::external_body]
pub struct ExRegex(regex::Regex);

#[verifier::external_type_specification]
#[verifier::external_body]
pub struct ExRegexError(regex::Error);

/// Whether the regex crate accepts `pattern` as a regular expression.
pub uninterp spec fn regex_valid(pattern: Seq<char>) -> bool;

/// Whether the regular expression `pattern` matches somewhere in `text`.
pub uninterp spec fn regex_matches(pattern: Seq<char>, text: Seq<char>) -> bool;

/// Calls `regex::Regex::new`: it succeeds exactly on the patterns that the
/// regex crate accepts, a function of the pattern alone.
#[verifier::external_body]
fn regex_new(pattern: &str) -> (res: Result<regex::Regex, regex::Error>)
    ensures
        res is Ok <==> regex_valid(pattern@),
{
    regex::Regex::new(pattern)
}

/// A password policy pattern together with its compiled form. The two are
/// only ever built together, by [`PasswordRegex::compile`].
pub struct PasswordRegex {
    pattern: String,
    compiled: regex::Regex,
}

/// Calls `regex::Regex::is_match` on the compiled form of `re`, which was
/// compiled from `re`'s pattern: whether that pattern matches in `text`.
#[verifier::external_body]
fn regex_is_match(re: &PasswordRegex, text: &str) -> (res: bool)
    ensures
        res == regex_matches(re.pattern_view(), text@),
{
    re.compiled.is_match(text)
}

impl PasswordRegex {
    /// The pattern is one the regex crate accepts, and the compiled form was
    /// made from it: both are set together, by [`PasswordRegex::compile`]
    /// alone.
    #[verifier::type_invariant]
    spec fn compiled_from_pattern(self) -> bool {
        regex_valid(self.pattern@)
    }

    /// The pattern this regex was compiled from.
    pub closed spec fn pattern_view(&self) -> Seq<char> {
        self.pattern@
    }

    /// Compiles `pattern`; fails exactly when the regex crate refuses it.
    pub fn compile(pattern: &str) -> (res: Result<PasswordRegex, regex::Error>)
        ensures
            res is Ok <==> regex_valid(pattern@),
            res matches Ok(r) ==> r.pattern_view() == pattern@,
    {
        match regex_new(pattern) {
            Ok(compiled) => Ok(PasswordRegex { pattern: String::from_str(pattern), compiled }),
            Err(e) => Err(e),
        }
    }

    /// The pattern this regex was compiled from.
    pub fn pattern(&self) -> (res: &String)
        ensures
            res@ == self.pattern_view(),
            regex_valid(res@),
    {
        proof {
            use_type_invariant(self);
        }
        &self.pattern
    }

    /// Whether the pattern matches somewhere in `text`.
    pub fn is_match(&self, text: &str) -> (res: bool)
        ensures
            res == regex_matches(self.pattern_view(), text@),
    {
        regex_is_match(self, text)
    }
}

/// Security compliance configuration errors.
#[derive(Debug)]
pub enum SecurityComplianceError {
    /// Password does not match the configured policy.
    PasswordInvalid(String),
    /// The configured password_regex is not a valid regular expression.
    InvalidRegex(regex::Error),
}

/// The message given when a password fails the policy and no description is
/// configured.
pub open spec fn default_policy_message() -> Seq<char> {
    "password does not comply with the configured security policy"@
}

/// The message given when a password fails the policy.
pub open spec fn policy_message(description: Option<String>) -> Seq<char> {
    match description {
        Some(d) => d@,
        None => default_policy_message(),
    }
}

/// Security compliance configuration. Times are in seconds.
pub struct SecurityComplianceProvider {
    /// Days without authentication after which a user counts as inactive.
    pub disable_user_account_days_inactive: Option<u16>,
    /// Whether users must change their password on first use.
    pub change_password_upon_first_use: bool,
    /// Hash function for reporting invalid passwords.
    pub invalid_password_hash_function: InvalidPasswordHashMethod,
    /// Secret key for reporting invalid passwords.
    pub invalid_password_hash_key: Option<String>,
    /// Number of characters of the reported hash.
    pub invalid_password_hash_max_chars: Option<u8>,
    /// Failed authentications after which the account is locked.
    pub lockout_failure_attempts: Option<u16>,
    /// How long, in seconds, an account stays locked.
    pub lockout_duration: Option<i64>,
    /// Days a password must be used before it can be changed.
    pub minimum_password_age: u32,
    /// Days for which a password stays valid.
    pub password_expires_days: Option<u64>,
    /// The regular expression passwords must match.
    pub password_regex: Option<String>,
    /// Human readable description of `password_regex`.
    pub password_regex_description: Option<String>,
    /// Compiled form of `password_regex`.
    pub password_regex_re: Option<PasswordRegex>,
    /// Where hashes of invalid passwords are reported.
    pub report_invalid_password_hash: Vec<InvalidPasswordHashReport>,
    /// Number of previous passwords kept in history.
    pub unique_last_password_count: Option<u16>,
}

impl Default for SecurityComplianceProvider {
    fn default() -> (res: SecurityComplianceProvider)
        ensures
            res.disable_user_account_days_inactive is None,
            !res.change_password_upon_first_use,
            res.invalid_password_hash_key is None,
            res.invalid_password_hash_max_chars is None,
            res.lockout_failure_attempts is None,
            res.lockout_duration == Some(1800i64),
            res.minimum_password_age == 0,
            res.password_expires_days is None,
            res.password_regex is None,
            res.password_regex_description is None,
            res.password_regex_re is None,
            res.report_invalid_password_hash@ == seq![InvalidPasswordHashReport::Event],
            res.unique_last_password_count is None,
    {
        SecurityComplianceProvider {
            disable_user_account_days_inactive: None,
            change_password_upon_first_use: false,
            invalid_password_hash_function: InvalidPasswordHashMethod::Sha256,
            invalid_password_hash_key: None,
            invalid_password_hash_max_chars: None,
            lockout_failure_attempts: None,
            lockout_duration: AccountLockoutDuration::default(),
            minimum_password_age: 0,
            password_expires_days: None,
            password_regex: None,
            password_regex_description: None,
            password_regex_re: None,
            report_invalid_password_hash: ReportInvalidPasswordHash::default(),
            unique_last_password_count: None,
        }
    }
}

/// The day (counted from 1970-01-01, UTC) that holds the instant `t`, in
/// seconds.
pub open spec fn day_of(t: int) -> int {
    t / 86400
}

/// The day of an instant is the day whose 86400 seconds hold it: it starts
/// at or before the instant and the next day starts after it.
pub proof fn lemma_day_of_holds(t: int)
    ensures
        day_of(t) * 86400 <= t < day_of(t) * 86400 + 86400,
{
    assert(t == 86400 * (t / 86400) + t % 86400 && 0 <= t % 86400 < 86400) by (nonlinear_arith);
}

fn day_number(t: i64) -> (res: i64)
    ensures
        res == day_of(t as int),
{
    if t >= 0 {
        t / 86400
    } else {
        let back: i64 = -(t + 1);
        let q: i64 = back / 86400;
        proof {
            let ti = t as int;
            let bi = back as int;
            assert(bi == -ti - 1);
            assert(bi == 86400 * (bi / 86400) + bi % 86400) by (nonlinear_arith)
                requires
                    bi >= 0,
            ;
            assert(0 <= bi % 86400 < 86400) by (nonlinear_arith)
                requires
                    bi >= 0,
            ;
            let r = bi % 86400;
            let qq = bi / 86400;
            assert(ti == 86400 * (-qq - 1) + (86399 - r));
            assert(ti / 86400 == -qq - 1) by (nonlinear_arith)
                requires
                    ti == 86400 * (-qq - 1) + (86399 - r),
                    0 <= 86399 - r < 86400,
            ;
        }
        -q - 1
    }
}

impl SecurityComplianceProvider {
    /// The oldest day of last activity for a user to count as active, when
    /// `disable_user_account_days_inactive` is set; `now` is in seconds.
    pub fn get_user_last_activity_cutof_date(&self, now: i64) -> (res: Option<i64>)
        ensures
            res == (match self.disable_user_account_days_inactive {
                Some(days) => Some((day_of(now as int) - days) as i64),
                None => None::<i64>,
            }),
    {
        match self.disable_user_account_days_inactive {
            Some(days) => {
                let today = day_number(now);
                proof {
                    assert(today >= i64::MIN / 86400) by (nonlinear_arith)
                        requires
                            today == (now as int) / 86400,
                            now >= i64::MIN,
                    ;
                }
                Some(today - days as i64)
            },
            None => None,
        }
    }

    /// When a password set at `now` expires, when `password_expires_days` is
    /// set; times are in seconds.
    pub fn get_password_expires_at(&self, now: i64) -> (res: Option<i64>)
        requires
            self.password_expires_days matches Some(days) ==> i64::MIN <= now + days * 86400
                <= i64::MAX,
        ensures
            res == (match self.password_expires_days {
                Some(days) => Some((now + days * 86400) as i64),
                None => None::<i64>,
            }),
    {
        match self.password_expires_days {
            Some(days) => {
                let d: i128 = days as i128;
                assert(0 <= d * 86400 <= 0x1_0000_0000_0000_0000 * 86400) by (nonlinear_arith)
                    requires
                        0 <= d < 0x1_0000_0000_0000_0000,
                ;
                let t: i128 = now as i128 + d * 86400;
                Some(t as i64)
            },
            None => None,
        }
    }

    /// Compiles the configured `password_regex`; without one, nothing
    /// changes.
    pub fn compile_regex(&mut self) -> (res: Result<(), SecurityComplianceError>)
        ensures
            match old(self).password_regex {
                None => res is Ok && *final(self) == *old(self),
                Some(p) => if regex_valid(p@) {
                    &&& res is Ok
                    &&& final(self).password_regex_re matches Some(r) && r.pattern_view() == p@
                    &&& *final(self) == (SecurityComplianceProvider {
                        password_regex_re: final(self).password_regex_re,
                        ..*old(self)
                    })
                } else {
                    res matches Err(SecurityComplianceError::InvalidRegex(_))
                        && *final(self) == *old(self)
                },
            },
    {
        match &self.password_regex {
            Some(s) => {
                match PasswordRegex::compile(s.as_str()) {
                    Ok(re) => {
                        self.password_regex_re = Some(re);
                        Ok(())
                    },
                    Err(e) => Err(SecurityComplianceError::InvalidRegex(e)),
                }
            },
            None => Ok(()),
        }
    }

    /// Validates a password against the compiled policy pattern: without
    /// one every password passes; on a mismatch the error carries the
    /// configured description, or a default message.
    pub fn validate_password(&self, password: &str) -> (res: Result<(), SecurityComplianceError>)
        ensures
            match self.password_regex_re {
                None => res is Ok,
                Some(r) => if regex_matches(r.pattern_view(), password@) {
                    res is Ok
                } else {
                    res matches Err(SecurityComplianceError::PasswordInvalid(m))
                        && m@ == policy_message(self.password_regex_description)
                },
            },
    {
        match &self.password_regex_re {
            Some(re) => {
                if !re.is_match(password) {
                    let description = match &self.password_regex_description {
                        Some(d) => d.clone(),
                        None => String::from_str(
                            "password does not comply with the configured security policy",
                        ),
                    };
                    return Err(SecurityComplianceError::PasswordInvalid(description));
                }
                Ok(())
            },
            None => Ok(()),
        }
    }
}

/// The part of the service configuration that the library reads.
pub struct Config {
    pub identity: IdentityProvider,
    pub security_compliance: SecurityComplianceProvider,
}

impl Default for Config {
    fn default() -> (res: Config)
        ensures
            res.identity.max_password_length == 4096,
            res.identity.password_hashing_algorithm == PasswordHashingAlgo::Bcrypt,
            res.identity.password_hash_rounds is None,
            res.security_compliance.password_regex_re is None,
            res.security_compliance.lockout_failure_attempts is None,
            res.security_compliance.lockout_duration == Some(1800i64),
            res.security_compliance.password_expires_days is None,
            res.security_compliance.disable_user_account_days_inactive is None,
    {
        Config {
            identity: IdentityProvider::default(),
            security_compliance: SecurityComplianceProvider::default(),
        }
    }
}

} // verus!
