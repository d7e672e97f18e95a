//! The identity service's own decisions: errors, user creation and update
//! preparation, password authentication request completion, and the cache
//! of user domains.
use vstd::prelude::*;
use crate::auth::{AuthError, AuthenticationError};
use crate::config::{
    policy_message, regex_matches, SecurityComplianceError, SecurityComplianceProvider,
};
use crate::identity::{Domain, Federation, UserOptions, UserPasswordAuthRequest, UserResponse};
use crate::password_hashing::{HashErrorKind, PasswordHashError};

verus! {

/// Resource provider errors seen by the identity service.
#[derive(Debug)]
pub enum ResourceProviderError {
    /// The domain has not been found.
    DomainNotFound(String),
}

/// Identity provider error.
#[derive(Debug)]
pub enum IdentityProviderError {
    /// Authentication error.
    Authentication { source: AuthenticationError },
    /// Conflict.
    Conflict(String),
    /// Date calculation error.
    DateError,
    /// Driver error.
    Driver(String),
    /// The group has not been found.
    GroupNotFound(String),
    /// A background task failed; its message.
    Join(String),
    /// Corrupted database entries for the user.
    MalformedUser(String),
    /// No data for local_user and passwords.
    NoPasswordsForUser(String),
    /// Row does not contain password hash.
    NoPasswordHash(String),
    /// No entry in the `user` table for the user.
    NoMainUserEntry(String),
    /// Password hashing error.
    PasswordHash { source: PasswordHashError },
    /// Resource provider error.
    ResourceProvider { source: ResourceProviderError },
    /// Security compliance validation error.
    SecurityCompliance(SecurityComplianceError),
    /// (de)serialization error.
    Serde(String),
    /// Structures builder error: the missing field.
    StructBuilder(String),
    /// Unsupported driver.
    UnsupportedDriver(String),
    /// User id must be given.
    UserIdMissing,
    /// User ID or Name with Domain must be specified.
    UserIdOrNameWithDomain,
    /// The user has not been found.
    UserNotFound(String),
    /// Request validation error: the first field that failed.
    Validation(String),
}

/// What a [`SecurityComplianceError`] says, without its outside source.
pub enum ComplianceErrorKind {
    PasswordInvalid(Seq<char>),
    InvalidRegex,
}

/// The content of an [`IdentityProviderError`].
pub enum IdentityError {
    Authentication(AuthError),
    Conflict(Seq<char>),
    DateError,
    Driver(Seq<char>),
    GroupNotFound(Seq<char>),
    Join(Seq<char>),
    MalformedUser(Seq<char>),
    NoPasswordsForUser(Seq<char>),
    NoPasswordHash(Seq<char>),
    NoMainUserEntry(Seq<char>),
    PasswordHash(HashErrorKind),
    DomainNotFound(Seq<char>),
    SecurityCompliance(ComplianceErrorKind),
    Serde(Seq<char>),
    StructBuilder(Seq<char>),
    UnsupportedDriver(Seq<char>),
    UserIdMissing,
    UserIdOrNameWithDomain,
    UserNotFound(Seq<char>),
    Validation(Seq<char>),
}

/// What a security compliance error says.
pub open spec fn compliance_kind(e: SecurityComplianceError) -> ComplianceErrorKind {
    match e {
        SecurityComplianceError::PasswordInvalid(m) => ComplianceErrorKind::PasswordInvalid(m@),
        SecurityComplianceError::InvalidRegex(_) => ComplianceErrorKind::InvalidRegex,
    }
}

impl View for IdentityProviderError {
    type V = IdentityError;

    open spec fn view(&self) -> IdentityError {
        match self {
            IdentityProviderError::Authentication { source } => IdentityError::Authentication(
                source@,
            ),
            IdentityProviderError::Conflict(m) => IdentityError::Conflict(m@),
            IdentityProviderError::DateError => IdentityError::DateError,
            IdentityProviderError::Driver(m) => IdentityError::Driver(m@),
            IdentityProviderError::GroupNotFound(m) => IdentityError::GroupNotFound(m@),
            IdentityProviderError::Join(m) => IdentityError::Join(m@),
            IdentityProviderError::MalformedUser(m) => IdentityError::MalformedUser(m@),
            IdentityProviderError::NoPasswordsForUser(m) => IdentityError::NoPasswordsForUser(m@),
            IdentityProviderError::NoPasswordHash(m) => IdentityError::NoPasswordHash(m@),
            IdentityProviderError::NoMainUserEntry(m) => IdentityError::NoMainUserEntry(m@),
            IdentityProviderError::PasswordHash { source } => IdentityError::PasswordHash(
                source.kind(),
            ),
            IdentityProviderError::ResourceProvider { source } => match source {
                ResourceProviderError::DomainNotFound(n) => IdentityError::DomainNotFound(n@),
            },
            IdentityProviderError::SecurityCompliance(e) => IdentityError::SecurityCompliance(
                compliance_kind(*e),
            ),
            IdentityProviderError::Serde(m) => IdentityError::Serde(m@),
            IdentityProviderError::StructBuilder(m) => IdentityError::StructBuilder(m@),
            IdentityProviderError::UnsupportedDriver(m) => IdentityError::UnsupportedDriver(m@),
            IdentityProviderError::UserIdMissing => IdentityError::UserIdMissing,
            IdentityProviderError::UserIdOrNameWithDomain => IdentityError::UserIdOrNameWithDomain,
            IdentityProviderError::UserNotFound(m) => IdentityError::UserNotFound(m@),
            IdentityProviderError::Validation(m) => IdentityError::Validation(m@),
        }
    }
}

impl IdentityProviderError {
    /// A password hashing error.
    pub fn password_hash(source: PasswordHashError) -> (res: IdentityProviderError)
        ensures
            res@ == IdentityError::PasswordHash(source.kind()),
    {
        IdentityProviderError::PasswordHash { source }
    }

    /// A failed background task, by its message.
    pub fn join(message: String) -> (res: IdentityProviderError)
        ensures
            res@ == IdentityError::Join(message@),
    {
        IdentityProviderError::Join(message)
    }
}

/// User creation data.
pub struct UserCreate {
    /// The ID of the default project for the user.
    pub default_project_id: Option<String>,
    /// The ID of the domain.
    pub domain_id: String,
    /// Whether the user is enabled.
    pub enabled: Option<bool>,
    /// Additional user properties: each name with its JSON text.
    pub extra: Vec<(String, String)>,
    /// Federated identities of the user.
    pub federated: Option<Vec<Federation>>,
    /// The ID of the user. When unset a new UUID would be assigned.
    pub id: Option<String>,
    /// The user name. Must be unique within the owning domain.
    pub name: String,
    /// The resource options for the user.
    pub options: Option<UserOptions>,
    /// User password.
    pub password: Option<String>,
}

/// User update data.
pub struct UserUpdate {
    /// The ID of the default project for the user.
    pub default_project_id: Option<Option<String>>,
    /// Whether the user is enabled.
    pub enabled: Option<bool>,
    /// Additional user properties: each name with its JSON text.
    pub extra: Vec<(String, String)>,
    /// Federated identities of the user.
    pub federated: Option<Vec<Federation>>,
    /// The user name.
    pub name: Option<String>,
    /// The resource options for the user.
    pub options: Option<UserOptions>,
    /// New user password.
    pub password: Option<String>,
}

/// Whether a federation entry respects the length limits (64 characters
/// for the identity provider and for each protocol's ids).
pub open spec fn federation_valid(f: Federation) -> bool {
    &&& f.idp_id@.len() <= 64
    &&& forall|i: int|
        0 <= i < f.protocols@.len() ==> (#[trigger] f.protocols@[i]).protocol_id@.len() <= 64
            && f.protocols@[i].unique_id@.len() <= 64
}

/// Whether all federation entries respect the length limits.
pub open spec fn federations_valid(f: Option<Vec<Federation>>) -> bool {
    match f {
        Some(v) => forall|i: int| 0 <= i < v@.len() ==> federation_valid(#[trigger] v@[i]),
        None => true,
    }
}

/// Whether an optional text is absent or has between `min` and `max`
/// characters.
pub open spec fn opt_len_within(s: Option<String>, min: int, max: int) -> bool {
    match s {
        Some(t) => min <= t@.len() <= max,
        None => true,
    }
}

/// The first field of a user creation request that breaks its limits.
pub open spec fn user_create_problem(u: UserCreate) -> Option<Seq<char>> {
    if !opt_len_within(u.default_project_id, 1, 64) {
        Some("default_project_id"@)
    } else if !(1 <= u.domain_id@.len() <= 64) {
        Some("domain_id"@)
    } else if !federations_valid(u.federated) {
        Some("federated"@)
    } else if !opt_len_within(u.id, 1, 64) {
        Some("id"@)
    } else if !(1 <= u.name@.len() <= 255) {
        Some("name"@)
    } else if !opt_len_within(u.password, 0, 72) {
        Some("password"@)
    } else {
        None
    }
}

/// The first field of a user update request that breaks its limits.
pub open spec fn user_update_problem(u: UserUpdate) -> Option<Seq<char>> {
    if (match u.default_project_id {
        Some(p) => !opt_len_within(p, 0, 64),
        None => false,
    }) {
        Some("default_project_id"@)
    } else if !federations_valid(u.federated) {
        Some("federated"@)
    } else if !opt_len_within(u.name, 0, 255) {
        Some("name"@)
    } else if !opt_len_within(u.password, 0, 72) {
        Some("password"@)
    } else {
        None
    }
}

fn text_within(s: &String, min: usize, max: usize) -> (res: bool)
    ensures
        res == (min <= s@.len() <= max),
{
    let n = s.as_str().unicode_len();
    min <= n && n <= max
}

fn opt_text_within(s: &Option<String>, min: usize, max: usize) -> (res: bool)
    ensures
        res == opt_len_within(*s, min as int, max as int),
{
    match s {
        Some(t) => text_within(t, min, max),
        None => true,
    }
}

fn federation_check(f: &Federation) -> (res: bool)
    ensures
        res == federation_valid(*f),
{
    if !text_within(&f.idp_id, 0, 64) {
        return false;
    }
    let mut i: usize = 0;
    while i < f.protocols.len()
        invariant
            i <= f.protocols@.len(),
            forall|j: int|
                0 <= j < i ==> (#[trigger] f.protocols@[j]).protocol_id@.len() <= 64
                    && f.protocols@[j].unique_id@.len() <= 64,
        decreases f.protocols@.len() - i,
    {
        if !text_within(&f.protocols[i].protocol_id, 0, 64) || !text_within(
            &f.protocols[i].unique_id,
            0,
            64,
        ) {
            return false;
        }
        i += 1;
    }
    true
}

#[verifier::loop_isolation(false)]
fn federations_check(f: &Option<Vec<Federation>>) -> (res: bool)
    ensures
        res == federations_valid(*f),
{
    match f {
        Some(v) => {
            let mut i: usize = 0;
            while i < v.len()
                invariant
                    i <= v@.len(),
                    forall|j: int| 0 <= j < i ==> federation_valid(#[trigger] v@[j]),
                decreases v@.len() - i,
            {
                if !federation_check(&v[i]) {
                    assert(!federation_valid(v@[i as int]));
                    return false;
                }
                i += 1;
            }
            true
        },
        None => true,
    }
}

impl UserCreate {
    /// Checks the length limits of the request; the error names the first
    /// field that breaks them.
    pub fn validate(&self) -> (res: Result<(), IdentityProviderError>)
        ensures
            match user_create_problem(*self) {
                Some(f) => res matches Err(e) && e@ == IdentityError::Validation(f),
                None => res is Ok,
            },
    {
        let field = if !opt_text_within(&self.default_project_id, 1, 64) {
            "default_project_id"
        } else if !text_within(&self.domain_id, 1, 64) {
            "domain_id"
        } else if !federations_check(&self.federated) {
            "federated"
        } else if !opt_text_within(&self.id, 1, 64) {
            "id"
        } else if !text_within(&self.name, 1, 255) {
            "name"
        } else if !opt_text_within(&self.password, 0, 72) {
            "password"
        } else {
            return Ok(());
        };
        Err(IdentityProviderError::Validation(String::from_str(field)))
    }
}

impl UserUpdate {
    /// Checks the length limits of the request; the error names the first
    /// field that breaks them.
    pub fn validate(&self) -> (res: Result<(), IdentityProviderError>)
        ensures
            match user_update_problem(*self) {
                Some(f) => res matches Err(e) && e@ == IdentityError::Validation(f),
                None => res is Ok,
            },
    {
        let project_ok = match &self.default_project_id {
            Some(p) => opt_text_within(p, 0, 64),
            None => true,
        };
        let field = if !project_ok {
            "default_project_id"
        } else if !federations_check(&self.federated) {
            "federated"
        } else if !opt_text_within(&self.name, 0, 255) {
            "name"
        } else if !opt_text_within(&self.password, 0, 72) {
            "password"
        } else {
            return Ok(());
        };
        Err(IdentityProviderError::Validation(String::from_str(field)))
    }
}

/// The outcome of checking a new password against the security policy:
/// without a compiled pattern, or without a password, it passes.
pub open spec fn password_policy_outcome(
    sc: &SecurityComplianceProvider,
    password: Option<String>,
) -> Result<(), IdentityError> {
    match (password, sc.password_regex_re) {
        (Some(p), Some(r)) => if regex_matches(r.pattern_view(), p@) {
            Ok(())
        } else {
            Err(
                IdentityError::SecurityCompliance(
                    ComplianceErrorKind::PasswordInvalid(
                        policy_message(sc.password_regex_description),
                    ),
                ),
            )
        },
        _ => Ok(()),
    }
}

fn check_password_policy(sc: &SecurityComplianceProvider, password: &Option<String>) -> (res: Result<
    (),
    IdentityProviderError,
>)
    ensures
        match res {
            Ok(()) => password_policy_outcome(sc, *password) is Ok,
            Err(e) => password_policy_outcome(sc, *password) == Err::<(), IdentityError>(e@),
        },
{
    match password {
        Some(p) => match sc.validate_password(p.as_str()) {
            Ok(()) => Ok(()),
            Err(e) => Err(IdentityProviderError::SecurityCompliance(e)),
        },
        None => Ok(()),
    }
}

/// A user creation request with its defaults filled in: the given id when
/// none was set, and enabled unless said otherwise.
pub open spec fn with_create_defaults(u: UserCreate, generated_id: String) -> UserCreate {
    UserCreate {
        id: match u.id {
            Some(i) => Some(i),
            None => Some(generated_id),
        },
        enabled: match u.enabled {
            Some(e) => Some(e),
            None => Some(true),
        },
        ..u
    }
}

/// Prepares a user creation request: fills in the defaults (the id being
/// `generated_id` when none is set), validates the request, and checks the
/// password against the security policy.
pub fn complete_user_create(
    user: UserCreate,
    generated_id: String,
    sc: &SecurityComplianceProvider,
) -> (res: Result<UserCreate, IdentityProviderError>)
    ensures
        ({
            let full = with_create_defaults(user, generated_id);
            match user_create_problem(full) {
                Some(f) => res matches Err(e) && e@ == IdentityError::Validation(f),
                None => match password_policy_outcome(sc, full.password) {
                    Ok(()) => res == Ok::<UserCreate, IdentityProviderError>(full),
                    Err(pe) => res matches Err(e) && e@ == pe,
                },
            }
        }),
{
    let mut full = user;
    if full.id.is_none() {
        full.id = Some(generated_id);
    }
    if full.enabled.is_none() {
        full.enabled = Some(true);
    }
    full.validate()?;
    check_password_policy(sc, &full.password)?;
    Ok(full)
}

/// Prepares a user creation request, generating a random id (a version 4
/// UUID in its simple form) when none is set.
pub fn prepare_user_create(user: UserCreate, sc: &SecurityComplianceProvider) -> (res: Result<
    UserCreate,
    IdentityProviderError,
>)
    ensures
        exists|g: String|
            #![trigger with_create_defaults(user, g)]
            ({
                let full = with_create_defaults(user, g);
                &&& user.id is None ==> g@.len() == 32
                &&& match user_create_problem(full) {
                    Some(f) => res matches Err(e) && e@ == IdentityError::Validation(f),
                    None => match password_policy_outcome(sc, full.password) {
                        Ok(()) => res == Ok::<UserCreate, IdentityProviderError>(full),
                        Err(pe) => res matches Err(e) && e@ == pe,
                    },
                }
            }),
{
    let generated = if user.id.is_none() {
        crate::wrappers::uuid_v4_simple()
    } else {
        String::new()
    };
    let ghost g = generated;
    let res = complete_user_create(user, generated, sc);
    assert(with_create_defaults(user, g) == with_create_defaults(user, g));
    res
}

/// Checks a user update request: its length limits, then the new password
/// against the security policy.
pub fn check_user_update(user: &UserUpdate, sc: &SecurityComplianceProvider) -> (res: Result<
    (),
    IdentityProviderError,
>)
    ensures
        match user_update_problem(*user) {
            Some(f) => res matches Err(e) && e@ == IdentityError::Validation(f),
            None => match password_policy_outcome(sc, user.password) {
                Ok(()) => res is Ok,
                Err(pe) => res matches Err(e) && e@ == pe,
            },
        },
{
    user.validate()?;
    check_password_policy(sc, &user.password)
}

/// What a password authentication request needs before it reaches the
/// backend.
pub enum PasswordAuthLookup {
    /// The request identifies the user as it is.
    Ready(UserPasswordAuthRequest),
    /// The user's domain is given by name: find its id, then complete the
    /// request with [`with_found_domain`].
    FindDomain { request: UserPasswordAuthRequest, domain_name: String },
}

/// Checks that a password authentication request identifies the user: by id,
/// or by name within a domain given by id or by name.
pub fn prepare_password_auth(auth: UserPasswordAuthRequest) -> (res: Result<
    PasswordAuthLookup,
    IdentityProviderError,
>)
    ensures
        match auth.id {
            Some(_) => res == Ok::<PasswordAuthLookup, IdentityProviderError>(
                PasswordAuthLookup::Ready(auth),
            ),
            None => if auth.name is None {
                res matches Err(e) && e@ == IdentityError::UserIdOrNameWithDomain
            } else {
                match auth.domain {
                    None => res matches Err(e) && e@ == IdentityError::UserIdOrNameWithDomain,
                    Some(d) => match d.name {
                        Some(n) => res == Ok::<PasswordAuthLookup, IdentityProviderError>(
                            PasswordAuthLookup::FindDomain { request: auth, domain_name: n },
                        ),
                        None => if d.id is None {
                            res matches Err(e) && e@ == IdentityError::UserIdOrNameWithDomain
                        } else {
                            res == Ok::<PasswordAuthLookup, IdentityProviderError>(
                                PasswordAuthLookup::Ready(auth),
                            )
                        },
                    },
                }
            },
        },
{
    if auth.id.is_some() {
        return Ok(PasswordAuthLookup::Ready(auth));
    }
    if auth.name.is_none() {
        return Err(IdentityProviderError::UserIdOrNameWithDomain);
    }
    let (domain_name, has_id) = match &auth.domain {
        Some(d) => (d.name.clone(), d.id.is_some()),
        None => {
            return Err(IdentityProviderError::UserIdOrNameWithDomain);
        },
    };
    match domain_name {
        Some(n) => Ok(PasswordAuthLookup::FindDomain { request: auth, domain_name: n }),
        None => if has_id {
            Ok(PasswordAuthLookup::Ready(auth))
        } else {
            Err(IdentityProviderError::UserIdOrNameWithDomain)
        },
    }
}

/// Completes a request whose domain was given by name with the id of the
/// domain found under `domain_name`; when none was found, the domain is
/// reported missing.
pub fn with_found_domain(
    request: UserPasswordAuthRequest,
    domain_name: String,
    found: Option<String>,
) -> (res: Result<UserPasswordAuthRequest, IdentityProviderError>)
    ensures
        match found {
            None => res matches Err(e) && e@ == IdentityError::DomainNotFound(domain_name@),
            Some(id) => res matches Ok(r) && (r.id == request.id && r.name == request.name
                && r.password == request.password && match r.domain {
                Some(d) => d.id == Some(id) && d.name == (match request.domain {
                    Some(rd) => rd.name,
                    None => None::<String>,
                }),
                None => false,
            }),
        },
{
    match found {
        None => Err(
            IdentityProviderError::ResourceProvider {
                source: ResourceProviderError::DomainNotFound(domain_name),
            },
        ),
        Some(id) => {
            let mut r = request;
            let name = match r.domain {
                Some(d) => d.name,
                None => None,
            };
            r.domain = Some(Domain { id: Some(id), name });
            Ok(r)
        },
    }
}

/// The map that a list of (key, value) entries describes; a later entry
/// overrides an earlier one with the same key.
pub open spec fn entries_map(s: Seq<(String, String)>) -> Map<Seq<char>, Seq<char>>
    decreases s.len(),
{
    if s.len() == 0 {
        Map::empty()
    } else {
        entries_map(s.drop_last()).insert(s.last().0@, s.last().1@)
    }
}

/// Whether no two entries have the same key.
pub open spec fn unique_keys(s: Seq<(String, String)>) -> bool {
    forall|i: int, j: int| 0 <= i < s.len() && 0 <= j < s.len() && i != j ==> s[i].0@ != s[j].0@
}

proof fn lemma_entries_lookup(s: Seq<(String, String)>, k: Seq<char>)
    requires
        unique_keys(s),
    ensures
        forall|i: int|
            0 <= i < s.len() && s[i].0@ == k ==> entries_map(s).contains_key(k) && entries_map(s)[k]
                == s[i].1@,
        (forall|i: int| 0 <= i < s.len() ==> s[i].0@ != k) ==> !entries_map(s).contains_key(k),
    decreases s.len(),
{
    if s.len() > 0 {
        let init = s.drop_last();
        assert(unique_keys(init)) by {
            assert forall|i: int, j: int|
                0 <= i < init.len() && 0 <= j < init.len() && i != j implies init[i].0@
                != init[j].0@ by {
                assert(init[i] == s[i] && init[j] == s[j]);
            }
        }
        lemma_entries_lookup(init, k);
        assert forall|i: int|
            0 <= i < s.len() && s[i].0@ == k implies entries_map(s).contains_key(k)
            && entries_map(s)[k] == s[i].1@ by {
            if i < s.len() - 1 {
                assert(init[i] == s[i]);
                assert(s.last().0@ != k);
            }
        }
        if forall|i: int| 0 <= i < s.len() ==> s[i].0@ != k {
            assert forall|i: int| 0 <= i < init.len() implies init[i].0@ != k by {
                assert(init[i] == s[i]);
            }
            assert(s[s.len() - 1].0@ != k);
        }
    }
}

proof fn lemma_entries_update(s: Seq<(String, String)>, i: int, e: (String, String))
    requires
        unique_keys(s),
        0 <= i < s.len(),
        s[i].0@ == e.0@,
    ensures
        entries_map(s.update(i, e)) == entries_map(s).insert(e.0@, e.1@),
    decreases s.len(),
{
    let t = s.update(i, e);
    let init = s.drop_last();
    if i == s.len() - 1 {
        assert(t.drop_last() =~= init);
        assert(entries_map(t) =~= entries_map(s).insert(e.0@, e.1@));
    } else {
        assert(unique_keys(init)) by {
            assert forall|a: int, b: int|
                0 <= a < init.len() && 0 <= b < init.len() && a != b implies init[a].0@
                != init[b].0@ by {
                assert(init[a] == s[a] && init[b] == s[b]);
            }
        }
        lemma_entries_update(init, i, e);
        assert(t.drop_last() =~= init.update(i, e));
        assert(t.last() == s.last());
        assert(s.last().0@ != e.0@);
        assert(entries_map(t) =~= entries_map(s).insert(e.0@, e.1@));
    }
}

proof fn lemma_entries_remove(s: Seq<(String, String)>, i: int)
    requires
        unique_keys(s),
        0 <= i < s.len(),
    ensures
        entries_map(s.remove(i)) == entries_map(s).remove(s[i].0@),
        unique_keys(s.remove(i)),
    decreases s.len(),
{
    let t = s.remove(i);
    let init = s.drop_last();
    let k = s[i].0@;
    assert(unique_keys(init)) by {
        assert forall|a: int, b: int|
            0 <= a < init.len() && 0 <= b < init.len() && a != b implies init[a].0@
            != init[b].0@ by {
            assert(init[a] == s[a] && init[b] == s[b]);
        }
    }
    assert(unique_keys(t)) by {
        assert forall|a: int, b: int|
            0 <= a < t.len() && 0 <= b < t.len() && a != b implies t[a].0@ != t[b].0@ by {
            let a2 = if a < i { a } else { a + 1 };
            let b2 = if b < i { b } else { b + 1 };
            assert(t[a] == s[a2] && t[b] == s[b2]);
        }
    }
    if i == s.len() - 1 {
        assert(t =~= init);
        lemma_entries_lookup(init, k);
        assert forall|j: int| 0 <= j < init.len() implies init[j].0@ != k by {
            assert(init[j] == s[j]);
        }
        assert(!entries_map(init).contains_key(k));
        assert(entries_map(t) =~= entries_map(s).remove(k));
    } else {
        lemma_entries_remove(init, i);
        assert(init[i] == s[i]);
        assert(t.drop_last() =~= init.remove(i));
        assert(t.last() == s.last());
        assert(s.last().0@ != k);
        assert(entries_map(t) =~= entries_map(s).remove(k));
    }
}

/// Cache of user domain ids, by user id.
pub struct UserDomainCache {
    entries: Vec<(String, String)>,
}

impl View for UserDomainCache {
    type V = Map<Seq<char>, Seq<char>>;

    closed spec fn view(&self) -> Map<Seq<char>, Seq<char>> {
        entries_map(self.entries@)
    }
}

impl UserDomainCache {
    /// One entry per user.
    #[verifier::type_invariant]
    spec fn wf(self) -> bool {
        unique_keys(self.entries@)
    }

    /// An empty cache.
    pub fn new() -> (res: UserDomainCache)
        ensures
            res@ == Map::<Seq<char>, Seq<char>>::empty(),
    {
        UserDomainCache { entries: Vec::new() }
    }

    fn position(&self, user_id: &str) -> (res: Option<usize>)
        ensures
            match res {
                Some(i) => i < self.entries@.len() && self.entries@[i as int].0@ == user_id@,
                None => forall|i: int|
                    0 <= i < self.entries@.len() ==> self.entries@[i].0@ != user_id@,
            },
    {
        let mut i: usize = 0;
        while i < self.entries.len()
            invariant
                i <= self.entries@.len(),
                forall|j: int| 0 <= j < i ==> self.entries@[j].0@ != user_id@,
            decreases self.entries@.len() - i,
        {
            if crate::password_hashing::chars_eq_str(
                crate::password_hashing::chars_of(self.entries[i].0.as_str()).as_slice(),
                user_id,
            ) {
                return Some(i);
            }
            i += 1;
        }
        None
    }

    /// The cached domain id of the user, if any.
    pub fn get(&self, user_id: &str) -> (res: Option<String>)
        ensures
            match res {
                Some(d) => self@.contains_key(user_id@) && self@[user_id@] == d@,
                None => !self@.contains_key(user_id@),
            },
    {
        proof {
            use_type_invariant(self);
            lemma_entries_lookup(self.entries@, user_id@);
        }
        match self.position(user_id) {
            Some(i) => Some(self.entries[i].1.clone()),
            None => None,
        }
    }

    /// Records the domain id of the user, replacing a cached one.
    pub fn insert(&mut self, user_id: String, domain_id: String)
        ensures
            final(self)@ == old(self)@.insert(user_id@, domain_id@),
    {
        proof {
            use_type_invariant(&*self);
        }
        let pos = self.position(user_id.as_str());
        let mut entries: Vec<(String, String)> = Vec::new();
        std::mem::swap(&mut entries, &mut self.entries);
        let ghost s = entries@;
        match pos {
            Some(i) => {
                let ghost e = (user_id, domain_id);
                proof {
                    lemma_entries_update(s, i as int, e);
                }
                entries.set(i, (user_id, domain_id));
                assert(entries@ == s.update(i as int, e));
                assert(unique_keys(entries@)) by {
                    assert forall|a: int, b: int|
                        0 <= a < entries@.len() && 0 <= b < entries@.len() && a != b
                        implies entries@[a].0@ != entries@[b].0@ by {
                        if a != i && b != i {
                            assert(entries@[a] == s[a] && entries@[b] == s[b]);
                        } else if a == i {
                            assert(entries@[b] == s[b]);
                        } else {
                            assert(entries@[a] == s[a]);
                        }
                    }
                }
            },
            None => {
                entries.push((user_id, domain_id));
                assert(entries@.drop_last() =~= s);
            },
        }
        self.entries = entries;
    }

    /// Forgets the user.
    pub fn remove(&mut self, user_id: &str)
        ensures
            final(self)@ == old(self)@.remove(user_id@),
    {
        proof {
            use_type_invariant(&*self);
            lemma_entries_lookup(self.entries@, user_id@);
        }
        match self.position(user_id) {
            Some(i) => {
                let mut entries: Vec<(String, String)> = Vec::new();
                std::mem::swap(&mut entries, &mut self.entries);
                proof {
                    lemma_entries_remove(entries@, i as int);
                }
                entries.remove(i);
                self.entries = entries;
            },
            None => {
                assert(self@ =~= self@.remove(user_id@));
            },
        }
    }
}

/// What happens to the user-domain cache.
pub enum CacheEvent {
    /// The backend answered a domain id query for the user: the domain id,
    /// or `None` on failure.
    DomainIdAnswered { user: Seq<char>, domain: Option<Seq<char>> },
    /// The backend answered a user query: the user's domain id, or `None`
    /// when there is no such user.
    UserFetched { user: Seq<char>, domain: Option<Seq<char>> },
    /// The user was deleted.
    UserDeleted { user: Seq<char> },
}

/// The user an event is about.
pub open spec fn event_user(e: CacheEvent) -> Seq<char> {
    match e {
        CacheEvent::DomainIdAnswered { user, .. } => user,
        CacheEvent::UserFetched { user, .. } => user,
        CacheEvent::UserDeleted { user } => user,
    }
}

/// The cache after an event: with caching on, a found domain id is
/// recorded and a deleted user forgotten; with caching off nothing changes.
pub open spec fn cache_step(
    m: Map<Seq<char>, Seq<char>>,
    caching: bool,
    e: CacheEvent,
) -> Map<Seq<char>, Seq<char>> {
    if !caching {
        m
    } else {
        match e {
            CacheEvent::DomainIdAnswered { user, domain: Some(d) } => m.insert(user, d),
            CacheEvent::UserFetched { user, domain: Some(d) } => m.insert(user, d),
            CacheEvent::UserDeleted { user } => m.remove(user),
            _ => m,
        }
    }
}

/// The cache after a sequence of events.
pub open spec fn cache_after(
    m: Map<Seq<char>, Seq<char>>,
    caching: bool,
    events: Seq<CacheEvent>,
) -> Map<Seq<char>, Seq<char>>
    decreases events.len(),
{
    if events.len() == 0 {
        m
    } else {
        cache_step(cache_after(m, caching, events.drop_last()), caching, events.last())
    }
}

/// Whether the event records the domain id `d` for the user `u`.
pub open spec fn records(e: CacheEvent, u: Seq<char>, d: Seq<char>) -> bool {
    ||| e == CacheEvent::DomainIdAnswered { user: u, domain: Some(d) }
    ||| e == CacheEvent::UserFetched { user: u, domain: Some(d) }
}

/// With caching on, once a domain id `d` was found for the user `u` (by a
/// domain id query or a user query) and nothing about `u` happened since,
/// the cache holds `d` for `u`: a lookup then answers `d` without asking the
/// backend (see [`UserDomainCache::lookup_domain_id`]).
pub proof fn lemma_cached_until_forgotten(
    m: Map<Seq<char>, Seq<char>>,
    events: Seq<CacheEvent>,
    k: int,
    u: Seq<char>,
    d: Seq<char>,
)
    requires
        0 <= k < events.len(),
        records(events[k], u, d),
        forall|j: int| k < j < events.len() ==> event_user(#[trigger] events[j]) != u,
    ensures
        cache_after(m, true, events).contains_key(u),
        cache_after(m, true, events)[u] == d,
    decreases events.len(),
{
    if k < events.len() - 1 {
        lemma_cached_until_forgotten(m, events.drop_last(), k, u, d);
        assert(event_user(events[events.len() - 1]) != u);
    }
}

/// With caching off, the cache never changes.
pub proof fn lemma_no_caching_no_change(m: Map<Seq<char>, Seq<char>>, events: Seq<CacheEvent>)
    ensures
        cache_after(m, false, events) == m,
    decreases events.len(),
{
    if events.len() > 0 {
        lemma_no_caching_no_change(m, events.drop_last());
    }
}

/// Where the domain id of a user comes from.
pub enum DomainIdLookup {
    /// From the cache: this domain id.
    Cached(String),
    /// From the backend: hand its answer to
    /// [`UserDomainCache::on_backend_domain_id`].
    AskBackend,
}

impl UserDomainCache {
    /// Looks the user's domain up: with caching on, a cached domain id is
    /// used; otherwise the backend is asked.
    pub fn lookup_domain_id(&self, caching: bool, user_id: &str) -> (res: DomainIdLookup)
        ensures
            caching && self@.contains_key(user_id@) ==> (res matches DomainIdLookup::Cached(d)
                && d@ == self@[user_id@]),
            !(caching && self@.contains_key(user_id@)) ==> res is AskBackend,
    {
        if !caching {
            return DomainIdLookup::AskBackend;
        }
        match self.get(user_id) {
            Some(d) => DomainIdLookup::Cached(d),
            None => DomainIdLookup::AskBackend,
        }
    }

    /// Takes the backend's answer for the user's domain id: it is returned
    /// as it is, and with caching on a found domain id is recorded.
    pub fn on_backend_domain_id(
        &mut self,
        caching: bool,
        user_id: &str,
        answer: Result<String, IdentityProviderError>,
    ) -> (res: Result<String, IdentityProviderError>)
        ensures
            res == answer,
            final(self)@ == cache_step(
                old(self)@,
                caching,
                CacheEvent::DomainIdAnswered {
                    user: user_id@,
                    domain: match answer {
                        Ok(d) => Some(d@),
                        Err(_) => None,
                    },
                },
            ),
            match answer {
                Ok(d) => if caching {
                    final(self)@ == old(self)@.insert(user_id@, d@)
                } else {
                    final(self)@ == old(self)@
                },
                Err(_) => final(self)@ == old(self)@,
            },
    {
        match answer {
            Ok(d) => {
                if caching {
                    self.insert(String::from_str(user_id), d.clone());
                }
                Ok(d)
            },
            Err(e) => Err(e),
        }
    }

    /// Takes a user fetched from the backend: with caching on, the domain
    /// id of a found user is recorded.
    pub fn on_user_fetched(&mut self, caching: bool, user_id: &str, user: &Option<UserResponse>)
        ensures
            final(self)@ == cache_step(
                old(self)@,
                caching,
                CacheEvent::UserFetched {
                    user: user_id@,
                    domain: match user {
                        Some(u) => Some(u.domain_id@),
                        None => None,
                    },
                },
            ),
            match user {
                Some(u) => if caching {
                    final(self)@ == old(self)@.insert(user_id@, u.domain_id@)
                } else {
                    final(self)@ == old(self)@
                },
                None => final(self)@ == old(self)@,
            },
    {
        if caching {
            if let Some(u) = user {
                self.insert(String::from_str(user_id), u.domain_id.clone());
            }
        }
    }

    /// Takes the deletion of a user: with caching on, the user is forgotten.
    pub fn on_user_deleted(&mut self, caching: bool, user_id: &str)
        ensures
            final(self)@ == cache_step(old(self)@, caching, CacheEvent::UserDeleted { user: user_id@ }),
            caching ==> final(self)@ == old(self)@.remove(user_id@),
            !caching ==> final(self)@ == old(self)@,
    {
        if caching {
            self.remove(user_id);
        }
    }
}

/// A domain id recorded for a user is what a lookup of that user gives,
/// until the user is forgotten.
pub proof fn lemma_cache_read_after_write(
    before: Map<Seq<char>, Seq<char>>,
    user_id: Seq<char>,
    domain_id: Seq<char>,
    other: Seq<char>,
)
    ensures
        before.insert(user_id, domain_id).contains_key(user_id),
        before.insert(user_id, domain_id)[user_id] == domain_id,
        other != user_id ==> before.insert(user_id, domain_id).contains_key(other)
            == before.contains_key(other),
        other != user_id && before.contains_key(other) ==> before.insert(user_id, domain_id)[other]
            == before[other],
        !before.insert(user_id, domain_id).remove(user_id).contains_key(user_id),
{
}

/// Whether federated identities keep the documented limits: at most 64
/// characters for each identity provider id and for each protocol's id and
/// unique id.
pub open spec fn federation_limits(f: Option<Vec<Federation>>) -> bool {
    f matches Some(v) ==> forall|i: int|
        0 <= i < v@.len() ==> (#[trigger] v@[i]).idp_id@.len() <= 64 && forall|j: int|
            0 <= j < v@[i].protocols@.len() ==> (#[trigger] v@[i].protocols@[j]).protocol_id@.len()
                <= 64 && v@[i].protocols@[j].unique_id@.len() <= 64
}

/// A user creation request passes the length checks exactly when its
/// fields keep the documented limits: a default project id and an id of 1
/// to 64 characters when given, a domain id of 1 to 64 characters, a name of
/// 1 to 255 characters, a password of at most 72 characters when given, and
/// federated identities within their limits.
pub proof fn lemma_user_create_limits(u: UserCreate)
    ensures
        user_create_problem(u) is None <==> {
            &&& (u.default_project_id matches Some(p) ==> 1 <= p@.len() <= 64)
            &&& 1 <= u.domain_id@.len() <= 64
            &&& federation_limits(u.federated)
            &&& (u.id matches Some(x) ==> 1 <= x@.len() <= 64)
            &&& 1 <= u.name@.len() <= 255
            &&& (u.password matches Some(pw) ==> pw@.len() <= 72)
        },
{
    lemma_federation_limits(u.federated);
}

/// A user update request passes the length checks exactly when its fields
/// keep the documented limits: a default project id of at most 64
/// characters, a name of at most 255 characters and a password of at most
/// 72 characters when given, and federated identities within their limits.
pub proof fn lemma_user_update_limits(u: UserUpdate)
    ensures
        user_update_problem(u) is None <==> {
            &&& (u.default_project_id matches Some(Some(p)) ==> p@.len() <= 64)
            &&& federation_limits(u.federated)
            &&& (u.name matches Some(n) ==> n@.len() <= 255)
            &&& (u.password matches Some(pw) ==> pw@.len() <= 72)
        },
{
    lemma_federation_limits(u.federated);
}

proof fn lemma_federation_limits(f: Option<Vec<Federation>>)
    ensures
        federations_valid(f) <==> federation_limits(f),
{
    if let Some(v) = f {
        if federation_limits(f) {
            assert forall|i: int| 0 <= i < v@.len() implies federation_valid(#[trigger] v@[i]) by {
                assert forall|j: int| 0 <= j < v@[i].protocols@.len() implies (#[trigger] v@[i].protocols@[j]).protocol_id@.len() <= 64
                    && v@[i].protocols@[j].unique_id@.len() <= 64 by {
                    assert(v@[i].protocols@[j].protocol_id@.len() <= 64);
                }
            }
        }
    }
}

} // verus!
