//! Password authentication of local users: the decisions of the backend,
//! from the user lookup to the authentication result. The caller performs
//! each step's database work and hands back what it found. Times are in
//! seconds.
use vstd::prelude::*;
use crate::auth::{
    AuthError, AuthenticationContext, AuthenticationError, AuthenticationResult, IdentityInfo,
    PrincipalInfo, UserIdentityInfo,
};
use crate::config::{Config, SecurityComplianceProvider};
use crate::identity::{UserOptions, UserResponse};
use crate::identity_service::{IdentityError, IdentityProviderError};
use crate::password_hashing::{verify_outcome, verify_password, PasswordHashError};
use crate::util::digit_char;

verus! {

/// The local user row: name, domain and failed authentication counters.
pub struct LocalUserRecord {
    pub id: i32,
    pub user_id: String,
    pub domain_id: String,
    pub name: String,
    pub failed_auth_count: Option<i32>,
    /// Time of the last failed authentication.
    pub failed_auth_at: Option<i64>,
}

/// A password row of a user.
pub struct PasswordRecord {
    pub id: i32,
    pub password_hash: Option<String>,
    /// When the password expires.
    pub expires_at: Option<i64>,
}

/// The main user row.
pub struct UserRecord {
    pub id: String,
    pub enabled: Option<bool>,
}

/// A local user found by the lookup, with its passwords, newest first.
pub struct FoundUser {
    pub local_user: LocalUserRecord,
    pub passwords: Vec<PasswordRecord>,
}

/// Whether an account is temporarily locked.
#[derive(PartialEq, Eq, Structural, Clone, Copy, Debug)]
pub enum LockDecision {
    /// The account is locked.
    Locked,
    /// The account is not locked.
    Unlocked,
    /// The lock has run out (or its start is unknown): reset the failed
    /// authentication counters; the account is not locked.
    ResetThenUnlocked,
}

/// The lock decision for a user with `count` failed authentications, the
/// last one at `at`: once the count reaches the configured limit, the
/// account stays locked for the lockout duration after the last failure,
/// and for good when no duration is configured.
pub open spec fn lock_decision(
    sc: &SecurityComplianceProvider,
    count: Option<i32>,
    at: Option<i64>,
    now: i64,
) -> LockDecision {
    if sc.lockout_failure_attempts is Some && count is Some && count->0
        >= sc.lockout_failure_attempts->0 {
        match sc.lockout_duration {
            Some(d) => if at is Some && i64::MIN <= at->0 + d <= i64::MAX && at->0 + d > now {
                LockDecision::Locked
            } else {
                LockDecision::ResetThenUnlocked
            },
            None => LockDecision::Locked,
        }
    } else {
        LockDecision::Unlocked
    }
}

/// Whether the account is temporarily locked according to the security
/// compliance requirements.
pub fn should_lock(sc: &SecurityComplianceProvider, local_user: &LocalUserRecord, now: i64) -> (res:
    LockDecision)
    ensures
        res == lock_decision(sc, local_user.failed_auth_count, local_user.failed_auth_at, now),
{
    if let Some(limit) = sc.lockout_failure_attempts {
        if let Some(attempts) = local_user.failed_auth_count {
            if attempts >= limit as i32 {
                match sc.lockout_duration {
                    Some(duration) => {
                        if let Some(last_failure) = local_user.failed_auth_at {
                            if let Some(locked_till) = last_failure.checked_add(duration) {
                                if locked_till > now {
                                    return LockDecision::Locked;
                                }
                            }
                        }
                        return LockDecision::ResetThenUnlocked;
                    },
                    None => {
                        return LockDecision::Locked;
                    },
                }
            }
        }
    }
    LockDecision::Unlocked
}

/// Whether a password has expired at `now`.
pub open spec fn password_expired(p: PasswordRecord, now: i64) -> bool {
    p.expires_at matches Some(e) && e <= now
}

/// Whether a password has expired at `now`.
pub fn is_password_expired(p: &PasswordRecord, now: i64) -> (res: bool)
    ensures
        res == password_expired(*p, now),
{
    match p.expires_at {
        Some(e) => e <= now,
        None => false,
    }
}

/// The decimal text of `n`.
pub open spec fn nat_text(n: nat) -> Seq<char>
    decreases n,
{
    if n < 10 {
        seq![digit_char(n as int)]
    } else {
        nat_text(n / 10).push(digit_char((n % 10) as int))
    }
}

/// The decimal text of `n`, with a leading '-' when negative.
pub open spec fn int_text(n: int) -> Seq<char> {
    if n < 0 {
        seq!['-'] + nat_text((-n) as nat)
    } else {
        nat_text(n as nat)
    }
}

fn digit_char_exec(d: u64) -> (res: char)
    requires
        d < 10,
    ensures
        res == digit_char(d as int),
{
    if d == 0 {
        '0'
    } else if d == 1 {
        '1'
    } else if d == 2 {
        '2'
    } else if d == 3 {
        '3'
    } else if d == 4 {
        '4'
    } else if d == 5 {
        '5'
    } else if d == 6 {
        '6'
    } else if d == 7 {
        '7'
    } else if d == 8 {
        '8'
    } else {
        '9'
    }
}

fn nat_text_exec(n: u64) -> (res: Vec<char>)
    ensures
        res@ == nat_text(n as nat),
    decreases n,
{
    if n < 10 {
        let mut v: Vec<char> = Vec::new();
        v.push(digit_char_exec(n));
        assert(v@ =~= seq![digit_char(n as int)]);
        v
    } else {
        let mut v = nat_text_exec(n / 10);
        v.push(digit_char_exec(n % 10));
        v
    }
}

/// The decimal text of `n`.
pub fn int_text_exec(n: i32) -> (res: String)
    ensures
        res@ == int_text(n as int),
{
    if n < 0 {
        let magnitude: u64 = (-(n as i64)) as u64;
        let digits = nat_text_exec(magnitude);
        let mut all: Vec<char> = Vec::new();
        all.push('-');
        let mut i: usize = 0;
        while i < digits.len()
            invariant
                i <= digits@.len(),
                all@ == seq!['-'] + digits@.subrange(0, i as int),
            decreases digits@.len() - i,
        {
            all.push(digits[i]);
            assert(seq!['-'] + digits@.subrange(0, i + 1) =~= (seq!['-'] + digits@.subrange(
                0,
                i as int,
            )).push(digits@[i as int]));
            i += 1;
        }
        assert(digits@.subrange(0, digits@.len() as int) =~= digits@);
        crate::password_hashing::string_from_chars(all.as_slice())
    } else {
        let digits = nat_text_exec(n as u64);
        crate::password_hashing::string_from_chars(digits.as_slice())
    }
}

/// A step of password authentication.
pub enum PasswordAuthStep {
    /// No such user: verify the password against the dummy hash to take the
    /// usual time, then refuse with [`refuse_unknown_user`].
    VerifyDummy,
    /// Load the options of the found user, then go on with
    /// [`on_user_options`].
    LoadOptions(FoundUser),
    /// Reset the failed authentication counters where asked, then load the
    /// main user entry and go on with [`on_main_entry`].
    LoadMainEntry { found: FoundUser, options: UserOptions, reset_failed_auth: bool },
    /// Record a failed authentication of the user now, then refuse with
    /// [`wrong_password`].
    LogFailedAuth(FoundUser),
    /// Reset the user's last activity time to now, then build the user's
    /// response and finish with [`finish_password_auth`].
    ResetLastActive { found: FoundUser, options: UserOptions, user: UserRecord },
    /// Authentication failed.
    Failed(IdentityProviderError),
}

/// The first step once the local user and its passwords have been looked
/// up.
pub fn begin_password_auth(found: Option<FoundUser>) -> (res: PasswordAuthStep)
    ensures
        match found {
            None => res is VerifyDummy,
            Some(f) => res == PasswordAuthStep::LoadOptions(f),
        },
{
    match found {
        None => PasswordAuthStep::VerifyDummy,
        Some(f) => PasswordAuthStep::LoadOptions(f),
    }
}

/// The refusal of a wrong user name or password.
pub fn wrong_password() -> (res: IdentityProviderError)
    ensures
        res@ == IdentityError::Authentication(AuthError::UserNameOrPasswordWrong),
{
    IdentityProviderError::Authentication { source: AuthenticationError::UserNameOrPasswordWrong }
}

/// Refuses a user that does not exist, after verifying the password against
/// the dummy hash: a hashing error is reported as such, any verification
/// result as a wrong user name or password.
pub fn refuse_unknown_user(
    conf: &Config,
    password: &[u8],
    dummy_hash: Result<String, PasswordHashError>,
) -> (res: IdentityProviderError)
    ensures
        match dummy_hash {
            Err(e) => res@ == IdentityError::PasswordHash(e.kind()),
            Ok(h) => match verify_outcome(conf, password@, h@) {
                Err(k) => res@ == IdentityError::PasswordHash(k),
                Ok(_) => res@ == IdentityError::Authentication(AuthError::UserNameOrPasswordWrong),
            },
        },
{
    match dummy_hash {
        Err(e) => IdentityProviderError::password_hash(e),
        Ok(h) => match verify_password(conf, password, h.as_str()) {
            Err(e) => IdentityProviderError::password_hash(e),
            Ok(_) => wrong_password(),
        },
    }
}

/// The step after the user's options are known: unless the user is exempt
/// from lockout, a locked account is refused and a run-out lock is reset.
pub fn on_user_options(
    found: FoundUser,
    options: UserOptions,
    sc: &SecurityComplianceProvider,
    now: i64,
) -> (res: PasswordAuthStep)
    ensures
        ({
            let exempt = options.ignore_lockout_failure_attempts == Some(true);
            let decision = lock_decision(
                sc,
                found.local_user.failed_auth_count,
                found.local_user.failed_auth_at,
                now,
            );
            if !exempt && decision == LockDecision::Locked {
                res matches PasswordAuthStep::Failed(e) && e@ == IdentityError::Authentication(
                    AuthError::UserLocked(found.local_user.user_id@),
                )
            } else {
                res == PasswordAuthStep::LoadMainEntry {
                    found,
                    options,
                    reset_failed_auth: !exempt && decision == LockDecision::ResetThenUnlocked,
                }
            }
        }),
{
    let exempt = match options.ignore_lockout_failure_attempts {
        Some(v) => v,
        None => false,
    };
    if exempt {
        return PasswordAuthStep::LoadMainEntry { found, options, reset_failed_auth: false };
    }
    match should_lock(sc, &found.local_user, now) {
        LockDecision::Locked => PasswordAuthStep::Failed(
            IdentityProviderError::Authentication {
                source: AuthenticationError::UserLocked(found.local_user.user_id.clone()),
            },
        ),
        LockDecision::ResetThenUnlocked => PasswordAuthStep::LoadMainEntry {
            found,
            options,
            reset_failed_auth: true,
        },
        LockDecision::Unlocked => PasswordAuthStep::LoadMainEntry {
            found,
            options,
            reset_failed_auth: false,
        },
    }
}

/// The step after the main user entry has been looked up: the user must
/// exist and be enabled, have a password with a hash, the password must
/// match the newest hash, and it must not have expired unless the user is
/// exempt.
pub fn on_main_entry(
    conf: &Config,
    password: &[u8],
    found: FoundUser,
    options: UserOptions,
    entry: Option<UserRecord>,
    now: i64,
) -> (res: PasswordAuthStep)
    ensures
        match entry {
            None => res matches PasswordAuthStep::Failed(e) && e@ == IdentityError::NoMainUserEntry(
                found.local_user.user_id@,
            ),
            Some(u) => if u.enabled != Some(true) {
                res matches PasswordAuthStep::Failed(e) && e@ == IdentityError::Authentication(
                    AuthError::UserDisabled(found.local_user.user_id@),
                )
            } else if found.passwords@.len() == 0 {
                res matches PasswordAuthStep::Failed(e) && e@ == IdentityError::NoPasswordsForUser(
                    found.local_user.user_id@,
                )
            } else {
                let latest = found.passwords@[0];
                match latest.password_hash {
                    None => res matches PasswordAuthStep::Failed(e) && e@
                        == IdentityError::NoPasswordHash(int_text(latest.id as int)),
                    Some(h) => match verify_outcome(conf, password@, h@) {
                        Err(k) => res matches PasswordAuthStep::Failed(e) && e@
                            == IdentityError::PasswordHash(k),
                        Ok(false) => res == PasswordAuthStep::LogFailedAuth(found),
                        Ok(true) => if options.ignore_password_expiry != Some(true)
                            && password_expired(latest, now) {
                            res matches PasswordAuthStep::Failed(e) && e@
                                == IdentityError::Authentication(
                                AuthError::UserPasswordExpired(found.local_user.user_id@),
                            )
                        } else {
                            res == PasswordAuthStep::ResetLastActive { found, options, user: u }
                        },
                    },
                }
            },
        },
{
    let user = match entry {
        Some(u) => u,
        None => {
            return PasswordAuthStep::Failed(
                IdentityProviderError::NoMainUserEntry(found.local_user.user_id.clone()),
            );
        },
    };
    let enabled = match user.enabled {
        Some(e) => e,
        None => false,
    };
    if !enabled {
        return PasswordAuthStep::Failed(
            IdentityProviderError::Authentication {
                source: AuthenticationError::UserDisabled(found.local_user.user_id.clone()),
            },
        );
    }
    if found.passwords.len() == 0 {
        return PasswordAuthStep::Failed(
            IdentityProviderError::NoPasswordsForUser(found.local_user.user_id.clone()),
        );
    }
    let verified = match &found.passwords[0].password_hash {
        None => {
            return PasswordAuthStep::Failed(
                IdentityProviderError::NoPasswordHash(int_text_exec(found.passwords[0].id)),
            );
        },
        Some(h) => verify_password(conf, password, h.as_str()),
    };
    match verified {
        Err(e) => PasswordAuthStep::Failed(IdentityProviderError::password_hash(e)),
        Ok(false) => PasswordAuthStep::LogFailedAuth(found),
        Ok(true) => {
            let exempt = match options.ignore_password_expiry {
                Some(v) => v,
                None => false,
            };
            if !exempt && is_password_expired(&found.passwords[0], now) {
                return PasswordAuthStep::Failed(
                    IdentityProviderError::Authentication {
                        source: AuthenticationError::UserPasswordExpired(
                            found.local_user.user_id.clone(),
                        ),
                    },
                );
            }
            PasswordAuthStep::ResetLastActive { found, options, user }
        },
    }
}

/// The result of a successful password authentication of `user`: the
/// password context and the user as the principal.
pub fn finish_password_auth(user: UserResponse) -> (res: AuthenticationResult)
    ensures
        res.context == AuthenticationContext::Password,
        res.principal.identity matches IdentityInfo::User(u) && u.user_id@ == user.id@
            && u.user == Some(user) && u.user_domain is None && u.user_groups@.len() == 0,
        res.expires_at is None,
        res.authorization is None,
        res.token_restriction is None,
{
    let user_id = user.id.clone();
    let identity = UserIdentityInfo {
        user: Some(user),
        user_domain: None,
        user_groups: Vec::new(),
        user_id,
    };
    AuthenticationResult::new(
        AuthenticationContext::Password,
        PrincipalInfo { identity: IdentityInfo::User(identity) },
    )
}

/// With a lockout duration, a lock ends once the duration has passed since
/// the last failure: from then on the account is not locked.
pub proof fn lemma_lock_expires(
    sc: &SecurityComplianceProvider,
    count: Option<i32>,
    last_failure: i64,
    duration: i64,
    now: i64,
)
    requires
        sc.lockout_duration == Some(duration),
        now >= last_failure + duration,
    ensures
        lock_decision(sc, count, Some(last_failure), now) != LockDecision::Locked,
{
}

/// An account below the failure limit is never locked.
pub proof fn lemma_below_limit_unlocked(
    sc: &SecurityComplianceProvider,
    count: i32,
    at: Option<i64>,
    now: i64,
)
    requires
        sc.lockout_failure_attempts matches Some(limit) && count < limit,
    ensures
        lock_decision(sc, Some(count), at, now) == LockDecision::Unlocked,
{
}

} // verus!
