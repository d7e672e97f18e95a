//! # Authorization and authentication information.
//!
//! Authentication and authorization types with the validation shared by all
//! authentication methods: the principal must be resolved and enabled, the
//! authorization scope must be reachable from the authentication method, and
//! a scoped context must carry roles before use.
use vstd::prelude::*;
use crate::credential::{ApplicationCredential, FernetToken, TokenRestriction, Trust, TrustView};
use crate::identity::{UserResponse, UserResponseView};
use crate::resource::{Domain, DomainView, Group, GroupView, Project};
use crate::role::{RoleRef, RoleRefView, opt_role_views, role_views};
use crate::spiffe::SpiffeBinding;
use crate::util::{opt_str, strs};
use crate::wrappers::{uuid_v5_simple, uuid_v5_simple_text};
use vstd::utf8::encode_utf8;

verus! {

/// Namespace UUID for the virtual user ID of workload principals (UUIDv5).
pub const NAMESPACE_UUID: u128 = 0x96f0e3b8_0d21_41bc_bd0d_457da94345f9u128;

/// Authentication and authorization errors.
#[derive(Debug)]
pub enum AuthenticationError {
    /// Actor has no roles on the target scope.
    ActorHasNoRolesOnTarget,
    /// Application Credential has expired.
    AuthApplicationCredentialExpired,
    /// Token has expired.
    AuthTokenExpired,
    /// Varying principal used in multiple authentication methods.
    AuthnPrincipalMismatch,
    /// The authentication context is bound to another user than the
    /// principal.
    AuthzPrincipalMismatch,
    /// Domain is disabled.
    DomainDisabled(String),
    /// Authorization is forbidden.
    Forbidden,
    /// Project is disabled.
    ProjectDisabled(String),
    /// The security context must be resolved before the use.
    SecurityContextNotResolved,
    /// Scope is not allowed with the current security context.
    ScopeNotAllowed,
    /// A structure could not be built: a required field is missing.
    StructBuilder(String),
    /// Token missing in the context.
    TokenNotInContext,
    /// Token renewal is forbidden.
    TokenRenewalForbidden,
    /// Trusts can only be consumed by regular users.
    TrustorPrincipalUseNotSupported,
    /// The trustor domain is disabled.
    TrustorDomainDisabled,
    /// The trustor user is disabled.
    TrustorUserDisabled(String),
    /// Unauthorized.
    Unauthorized,
    /// User is disabled.
    UserDisabled(String),
    /// The user domain is disabled.
    UserDomainDisabled,
    /// User is locked due to the multiple failed attempts.
    UserLocked(String),
    /// User name password combination is wrong.
    UserNameOrPasswordWrong,
    /// User password is expired.
    UserPasswordExpired(String),
    /// A role assignment failed to convert to a role reference.
    RoleConversionFailed,
    /// A provider error: its message and the operation that failed.
    Provider { message: String, context: Option<String> },
    /// A validation error, with its message.
    Validation(String),
}

/// The content of an [`AuthenticationError`].
pub enum AuthError {
    ActorHasNoRolesOnTarget,
    AuthApplicationCredentialExpired,
    AuthTokenExpired,
    AuthnPrincipalMismatch,
    AuthzPrincipalMismatch,
    DomainDisabled(Seq<char>),
    Forbidden,
    ProjectDisabled(Seq<char>),
    SecurityContextNotResolved,
    ScopeNotAllowed,
    StructBuilder(Seq<char>),
    TokenNotInContext,
    TokenRenewalForbidden,
    TrustorPrincipalUseNotSupported,
    TrustorDomainDisabled,
    TrustorUserDisabled(Seq<char>),
    Unauthorized,
    UserDisabled(Seq<char>),
    UserDomainDisabled,
    UserLocked(Seq<char>),
    UserNameOrPasswordWrong,
    UserPasswordExpired(Seq<char>),
    RoleConversionFailed,
    Provider { message: Seq<char>, context: Option<Seq<char>> },
    Validation(Seq<char>),
}

impl View for AuthenticationError {
    type V = AuthError;

    open spec fn view(&self) -> AuthError {
        match self {
            AuthenticationError::ActorHasNoRolesOnTarget => AuthError::ActorHasNoRolesOnTarget,
            AuthenticationError::AuthApplicationCredentialExpired => AuthError::AuthApplicationCredentialExpired,
            AuthenticationError::AuthTokenExpired => AuthError::AuthTokenExpired,
            AuthenticationError::AuthnPrincipalMismatch => AuthError::AuthnPrincipalMismatch,
            AuthenticationError::AuthzPrincipalMismatch => AuthError::AuthzPrincipalMismatch,
            AuthenticationError::DomainDisabled(s) => AuthError::DomainDisabled(s@),
            AuthenticationError::Forbidden => AuthError::Forbidden,
            AuthenticationError::ProjectDisabled(s) => AuthError::ProjectDisabled(s@),
            AuthenticationError::SecurityContextNotResolved => AuthError::SecurityContextNotResolved,
            AuthenticationError::ScopeNotAllowed => AuthError::ScopeNotAllowed,
            AuthenticationError::StructBuilder(s) => AuthError::StructBuilder(s@),
            AuthenticationError::TokenNotInContext => AuthError::TokenNotInContext,
            AuthenticationError::TokenRenewalForbidden => AuthError::TokenRenewalForbidden,
            AuthenticationError::TrustorPrincipalUseNotSupported => AuthError::TrustorPrincipalUseNotSupported,
            AuthenticationError::TrustorDomainDisabled => AuthError::TrustorDomainDisabled,
            AuthenticationError::TrustorUserDisabled(s) => AuthError::TrustorUserDisabled(s@),
            AuthenticationError::Unauthorized => AuthError::Unauthorized,
            AuthenticationError::UserDisabled(s) => AuthError::UserDisabled(s@),
            AuthenticationError::UserDomainDisabled => AuthError::UserDomainDisabled,
            AuthenticationError::UserLocked(s) => AuthError::UserLocked(s@),
            AuthenticationError::UserNameOrPasswordWrong => AuthError::UserNameOrPasswordWrong,
            AuthenticationError::UserPasswordExpired(s) => AuthError::UserPasswordExpired(s@),
            AuthenticationError::RoleConversionFailed => AuthError::RoleConversionFailed,
            AuthenticationError::Provider { message, context } => AuthError::Provider {
                message: message@,
                context: opt_str(*context),
            },
            AuthenticationError::Validation(s) => AuthError::Validation(s@),
        }
    }
}

/// The content of a unit result.
pub open spec fn unit_view(r: Result<(), AuthenticationError>) -> Result<(), AuthError> {
    match r {
        Ok(()) => Ok(()),
        Err(e) => Err(e@),
    }
}

/// Interface the connection was established on.
#[derive(PartialEq, Eq, Structural, Clone, Copy, Debug)]
pub enum Interface {
    /// Public interface.
    Public,
    /// Internal interface.
    Internal,
    /// Admin interface.
    Admin,
}

/// Traditional Keystone User.
pub struct UserIdentityInfo {
    /// Resolved user object.
    pub user: Option<UserResponse>,
    /// Resolved user domain information.
    pub user_domain: Option<Domain>,
    /// Resolved user groups.
    pub user_groups: Vec<Group>,
    /// User id.
    pub user_id: String,
}

/// The content of a [`UserIdentityInfo`].
pub struct UserIdentityInfoView {
    pub user: Option<UserResponseView>,
    pub user_domain: Option<DomainView>,
    pub user_groups: Seq<GroupView>,
    pub user_id: Seq<char>,
}

impl View for UserIdentityInfo {
    type V = UserIdentityInfoView;

    open spec fn view(&self) -> UserIdentityInfoView {
        UserIdentityInfoView {
            user: match self.user {
                Some(u) => Some(u@),
                None => None,
            },
            user_domain: match self.user_domain {
                Some(d) => Some(d@),
                None => None,
            },
            user_groups: self.user_groups@.map_values(|g: Group| g@),
            user_id: self.user_id@,
        }
    }
}

/// The message of a user id that is empty or too long.
pub open spec fn user_id_length_message() -> Seq<char> {
    "user id must be >1 and <64 characters long"@
}

/// The outcome of validating a user identity: the user id is 1 to 64 bytes
/// long, the user is resolved, matches the id and is enabled, and the user
/// domain is resolved and enabled.
pub open spec fn user_identity_check(u: UserIdentityInfo) -> Result<(), AuthError> {
    if u.user_id@.len() == 0 || encode_utf8(u.user_id@).len() > 64 {
        Err(AuthError::Validation(user_id_length_message()))
    } else if u.user is None || u.user->0.id@ != u.user_id@ {
        Err(AuthError::Unauthorized)
    } else if !u.user->0.enabled {
        Err(AuthError::UserDisabled(u.user_id@))
    } else if u.user_domain is None {
        Err(AuthError::Unauthorized)
    } else if !u.user_domain->0.enabled {
        Err(AuthError::UserDomainDisabled)
    } else {
        Ok(())
    }
}

impl UserIdentityInfo {
    /// Validates the user identity data against business rules.
    pub fn validate(&self) -> (res: Result<(), AuthenticationError>)
        ensures
            unit_view(res) == user_identity_check(*self),
    {
        let len = self.user_id.as_str().as_bytes().len();
        if self.user_id.as_str().is_empty() || len > 64 {
            return Err(AuthenticationError::Validation(
                String::from_str("user id must be >1 and <64 characters long"),
            ));
        }
        match &self.user {
            Some(user) => {
                if !(user.id == self.user_id) {
                    return Err(AuthenticationError::Unauthorized);
                }
                if !user.enabled {
                    return Err(AuthenticationError::UserDisabled(self.user_id.clone()));
                }
            },
            None => {
                return Err(AuthenticationError::Unauthorized);
            },
        }
        match &self.user_domain {
            Some(user_domain) => {
                if !user_domain.enabled {
                    return Err(AuthenticationError::UserDomainDisabled);
                }
            },
            None => {
                return Err(AuthenticationError::Unauthorized);
            },
        }
        Ok(())
    }

    /// Compares two user identities by content.
    pub fn same_as(&self, other: &UserIdentityInfo) -> (res: bool)
        ensures
            res == (self@ == other@),
    {
        let users_eq = match (&self.user, &other.user) {
            (Some(a), Some(b)) => a.same_as(b),
            (None, None) => true,
            _ => false,
        };
        let domains_eq = match (&self.user_domain, &other.user_domain) {
            (Some(a), Some(b)) => a.same_as(b),
            (None, None) => true,
            _ => false,
        };
        if !users_eq || !domains_eq || !(self.user_id == other.user_id) {
            return false;
        }
        if self.user_groups.len() != other.user_groups.len() {
            assert(self@.user_groups.len() != other@.user_groups.len());
            return false;
        }
        let mut i: usize = 0;
        while i < self.user_groups.len()
            invariant
                self.user_groups.len() == other.user_groups.len(),
                i <= self.user_groups.len(),
                forall|j: int| 0 <= j < i ==> self.user_groups@[j]@ == other.user_groups@[j]@,
            decreases self.user_groups.len() - i,
        {
            if !self.user_groups[i].same_as(&other.user_groups[i]) {
                assert(self@.user_groups[i as int] != other@.user_groups[i as int]);
                return false;
            }
            i += 1;
        }
        assert(self@.user_groups =~= other@.user_groups);
        true
    }
}

/// Workload principal.
pub struct PrincipalIdentityInfo {
    /// The unique identifier for the workload (e.g., SPIFFE ID).
    pub id: String,
    /// Metadata about the workload environment, as (key, value) pairs.
    pub attributes: Vec<(String, String)>,
    /// The source of the identity.
    pub issuer: String,
    /// Domain the principal belongs to.
    pub domain: Option<Domain>,
}

/// The content of a [`PrincipalIdentityInfo`].
pub struct PrincipalIdentityInfoView {
    pub id: Seq<char>,
    pub attributes: Seq<(Seq<char>, Seq<char>)>,
    pub issuer: Seq<char>,
    pub domain: Option<DomainView>,
}

impl View for PrincipalIdentityInfo {
    type V = PrincipalIdentityInfoView;

    open spec fn view(&self) -> PrincipalIdentityInfoView {
        PrincipalIdentityInfoView {
            id: self.id@,
            attributes: self.attributes@.map_values(|kv: (String, String)| (kv.0@, kv.1@)),
            issuer: self.issuer@,
            domain: match self.domain {
                Some(d) => Some(d@),
                None => None,
            },
        }
    }
}

impl PrincipalIdentityInfo {
    /// Validates the workload principal: `id` and `issuer` are non-empty.
    pub fn validate(&self) -> (res: Result<(), AuthenticationError>)
        ensures
            unit_view(res) == (if self.id@.len() == 0 || self.issuer@.len() == 0 {
                Err(AuthError::Unauthorized)
            } else {
                Ok(())
            }),
    {
        if self.id.as_str().is_empty() {
            return Err(AuthenticationError::Unauthorized);
        }
        if self.issuer.as_str().is_empty() {
            return Err(AuthenticationError::Unauthorized);
        }
        Ok(())
    }

    /// Compares two workload principals by content.
    pub fn same_as(&self, other: &PrincipalIdentityInfo) -> (res: bool)
        ensures
            res == (self@ == other@),
    {
        let domains_eq = match (&self.domain, &other.domain) {
            (Some(a), Some(b)) => a.same_as(b),
            (None, None) => true,
            _ => false,
        };
        if !domains_eq || !(self.id == other.id) || !(self.issuer == other.issuer) {
            return false;
        }
        if self.attributes.len() != other.attributes.len() {
            assert(self@.attributes.len() != other@.attributes.len());
            return false;
        }
        let mut i: usize = 0;
        while i < self.attributes.len()
            invariant
                self.attributes.len() == other.attributes.len(),
                i <= self.attributes.len(),
                forall|j: int|
                    0 <= j < i ==> self.attributes@[j].0@ == other.attributes@[j].0@
                        && self.attributes@[j].1@ == other.attributes@[j].1@,
            decreases self.attributes.len() - i,
        {
            if !(self.attributes[i].0 == other.attributes[i].0) || !(self.attributes[i].1
                == other.attributes[i].1) {
                assert(self@.attributes[i as int] != other@.attributes[i as int]);
                return false;
            }
            i += 1;
        }
        assert(self@.attributes =~= other@.attributes);
        true
    }
}

/// Principal identity information.
pub enum IdentityInfo {
    /// Traditional user.
    User(UserIdentityInfo),
    /// A remote identity (Spiffe, SA, etc).
    Principal(PrincipalIdentityInfo),
}

/// The content of an [`IdentityInfo`].
pub enum IdentityInfoView {
    User(UserIdentityInfoView),
    Principal(PrincipalIdentityInfoView),
}

impl View for IdentityInfo {
    type V = IdentityInfoView;

    open spec fn view(&self) -> IdentityInfoView {
        match self {
            IdentityInfo::User(u) => IdentityInfoView::User(u@),
            IdentityInfo::Principal(p) => IdentityInfoView::Principal(p@),
        }
    }
}

/// The outcome of validating an identity: a user is checked as a user; a
/// workload principal needs a non-empty id and issuer and, when its domain
/// is resolved, an enabled domain.
pub open spec fn identity_check(i: IdentityInfo) -> Result<(), AuthError> {
    match i {
        IdentityInfo::User(u) => user_identity_check(u),
        IdentityInfo::Principal(p) => if p.id@.len() == 0 || p.issuer@.len() == 0 {
            Err(AuthError::Unauthorized)
        } else if p.domain is Some && !p.domain->0.enabled {
            Err(AuthError::DomainDisabled(p.domain->0.id@))
        } else {
            Ok(())
        },
    }
}

impl IdentityInfo {
    /// Validates the identity data against business rules.
    pub fn validate(&self) -> (res: Result<(), AuthenticationError>)
        ensures
            unit_view(res) == identity_check(*self),
    {
        match self {
            IdentityInfo::User(user) => user.validate(),
            IdentityInfo::Principal(principal) => {
                principal.validate()?;
                if let Some(domain) = &principal.domain {
                    if !domain.enabled {
                        return Err(AuthenticationError::DomainDisabled(domain.id.clone()));
                    }
                }
                Ok(())
            },
        }
    }
}

/// Principal information: the entity that tries to perform an action.
pub struct PrincipalInfo {
    /// Principal identity.
    pub identity: IdentityInfo,
}

impl View for PrincipalInfo {
    type V = IdentityInfoView;

    open spec fn view(&self) -> IdentityInfoView {
        self.identity@
    }
}

/// The user id of a principal: the user id of a user; for a workload
/// principal the virtual UUIDv5 of its id in [`NAMESPACE_UUID`].
pub open spec fn principal_user_id(p: PrincipalInfo) -> Seq<char> {
    match p.identity {
        IdentityInfo::User(u) => u.user_id@,
        IdentityInfo::Principal(w) => uuid_v5_simple_text(NAMESPACE_UUID, encode_utf8(w.id@)),
    }
}

/// The domain id of a principal: the resolved user domain, else the user's
/// own domain id; for a workload principal, its resolved domain.
pub open spec fn principal_domain_id(p: PrincipalInfo) -> Option<Seq<char>> {
    match p.identity {
        IdentityInfo::User(u) => if u.user_domain is Some {
            Some(u.user_domain->0.id@)
        } else if u.user is Some {
            Some(u.user->0.domain_id@)
        } else {
            None
        },
        IdentityInfo::Principal(w) => if w.domain is Some {
            Some(w.domain->0.id@)
        } else {
            None
        },
    }
}

impl PrincipalInfo {
    /// Returns the domain ID of the principal.
    pub fn domain_id(&self) -> (res: Option<String>)
        ensures
            opt_str(res) == principal_domain_id(*self),
    {
        match &self.identity {
            IdentityInfo::User(user) => {
                if let Some(domain) = &user.user_domain {
                    Some(domain.id.clone())
                } else {
                    match &user.user {
                        Some(u) => Some(u.domain_id.clone()),
                        None => None,
                    }
                }
            },
            IdentityInfo::Principal(principal) => match &principal.domain {
                Some(domain) => Some(domain.id.clone()),
                None => None,
            },
        }
    }

    /// Validates the principal's identity data.
    pub fn validate(&self) -> (res: Result<(), AuthenticationError>)
        ensures
            unit_view(res) == identity_check(self.identity),
    {
        self.identity.validate()
    }

    /// Returns the user identifier for the principal.
    pub fn get_user_id(&self) -> (res: String)
        ensures
            res@ == principal_user_id(*self),
    {
        match &self.identity {
            IdentityInfo::User(user) => user.user_id.clone(),
            IdentityInfo::Principal(principal) => uuid_v5_simple(
                NAMESPACE_UUID,
                principal.id.as_str().as_bytes(),
            ),
        }
    }

    /// Compares two principals by content.
    pub fn same_as(&self, other: &PrincipalInfo) -> (res: bool)
        ensures
            res == (self@ == other@),
    {
        match (&self.identity, &other.identity) {
            (IdentityInfo::User(a), IdentityInfo::User(b)) => a.same_as(b),
            (IdentityInfo::Principal(a), IdentityInfo::Principal(b)) => a.same_as(b),
            _ => false,
        }
    }
}

} // verus!

verus! {

/// K8s auth context.
pub struct K8sContext {
    /// Token restriction bound to the K8s auth role.
    pub token_restriction_id: String,
}

/// OIDC auth context.
pub struct OidcContext {
    /// Federated IDP id.
    pub idp_id: String,
    /// Federated protocol id.
    pub protocol_id: String,
}

/// Authentication context: how the principal was verified. Roles carried
/// here are the original roles of the resource, not the effective roles.
pub enum AuthenticationContext {
    /// Login using application credentials.
    ApplicationCredential {
        /// Application credential.
        application_credential: ApplicationCredential,
        /// Original token with the application credential payload.
        token: Option<FernetToken>,
    },
    /// Login using OIDC federation.
    Oidc {
        /// The federation data.
        oidc: OidcContext,
        /// Original token with the federated payload.
        token: Option<FernetToken>,
    },
    /// K8s Auth.
    K8s(K8sContext),
    /// Login with password.
    Password,
    /// SPIRE authentication.
    Spiffe(SpiffeBinding),
    /// Login using a regular token.
    Token(FernetToken),
    /// Login consuming the trust.
    Trust {
        /// The consumed trust.
        trust: Trust,
        /// Original token with the trust payload.
        token: Option<FernetToken>,
    },
    /// Login with WebauthN credentials.
    WebauthN,
}

/// The authentication method names of a context. A token context carries
/// the methods of the parent token and adds `token`.
pub open spec fn context_methods(c: AuthenticationContext) -> Set<Seq<char>> {
    match c {
        AuthenticationContext::ApplicationCredential { .. } => set!["application_credential"@],
        AuthenticationContext::Oidc { .. } => set!["openid"@],
        AuthenticationContext::Password => set!["password"@],
        AuthenticationContext::K8s(_) => set!["mapped"@],
        AuthenticationContext::Spiffe(_) => set!["x509"@],
        AuthenticationContext::Token(t) => strs(t.methods@).to_set().insert("token"@),
        AuthenticationContext::Trust { .. } => set!["trust"@],
        AuthenticationContext::WebauthN => set!["x509"@],
    }
}

/// A one-element list of strings.
fn single(s: &str) -> (res: Vec<String>)
    ensures
        strs(res@) == seq![s@],
{
    let mut v: Vec<String> = Vec::new();
    v.push(String::from_str(s));
    assert(strs(v@) =~= seq![s@]);
    v
}

impl AuthenticationContext {
    /// Returns the authentication method names, each once.
    pub fn methods(&self) -> (res: Vec<String>)
        ensures
            strs(res@).to_set() == context_methods(*self),
            strs(res@).no_duplicates(),
    {
        let res = match self {
            AuthenticationContext::ApplicationCredential { .. } => single("application_credential"),
            AuthenticationContext::Oidc { .. } => single("openid"),
            AuthenticationContext::Password => single("password"),
            AuthenticationContext::K8s(_) => single("mapped"),
            AuthenticationContext::Spiffe(_) => single("x509"),
            AuthenticationContext::Token(token) => {
                let mut v: Vec<String> = Vec::new();
                assert(strs(v@).to_set() =~= Set::empty());
                crate::util::extend_unique(&mut v, crate::util::clone_strings(token.methods()));
                crate::util::push_unique(&mut v, String::from_str("token"));
                assert(strs(v@).to_set() =~= strs(token.methods@).to_set().insert("token"@));
                v
            },
            AuthenticationContext::Trust { .. } => single("trust"),
            AuthenticationContext::WebauthN => single("x509"),
        };
        proof {
            if !(self is Token) {
                assert(strs(res@).to_set() =~= set![strs(res@)[0]]);
            }
        }
        res
    }
}

/// The audit IDs a context carries over from its parent token.
pub open spec fn token_audit_ids(c: AuthenticationContext) -> Seq<String> {
    match c {
        AuthenticationContext::Token(t) => t.audit_ids@,
        _ => Seq::empty(),
    }
}

/// Trust-project scope information.
pub struct TrustProjectInfo {
    /// Trust information.
    pub trust: Trust,
    /// Project information for the trust scope.
    pub project: Project,
    /// Domain information for the trust scope.
    pub project_domain: Domain,
}

impl PartialEq for TrustProjectInfo {
    fn eq(&self, other: &Self) -> (res: bool) {
        self.trust.id == other.trust.id && self.project.id == other.project.id
    }
}

impl vstd::std_specs::cmp::PartialEqSpecImpl for TrustProjectInfo {
    open spec fn obeys_eq_spec() -> bool {
        true
    }

    open spec fn eq_spec(&self, other: &TrustProjectInfo) -> bool {
        self.trust.id@ == other.trust.id@ && self.project.id@ == other.project.id@
    }
}

/// Authorization scope.
pub enum ScopeInfo {
    /// Domain scope.
    Domain(Domain),
    /// Project scope.
    Project {
        /// Project information.
        project: Project,
        /// Domain information for the project scope.
        project_domain: Domain,
    },
    /// System scope.
    System(String),
    /// Trust scope.
    TrustProject(Box<TrustProjectInfo>),
    /// Unscoped.
    Unscoped,
}

/// When two scopes count as the same: domains by id and enabled flag,
/// projects by id, domain id and enabled flags, systems by id, trust scopes
/// by their trust.
pub open spec fn same_scope(a: ScopeInfo, b: ScopeInfo) -> bool {
    match (a, b) {
        (ScopeInfo::Domain(x), ScopeInfo::Domain(y)) => x.id@ == y.id@ && x.enabled == y.enabled,
        (
            ScopeInfo::Project { project: x, project_domain: dx },
            ScopeInfo::Project { project: y, project_domain: dy },
        ) => x.id@ == y.id@ && x.domain_id@ == y.domain_id@ && x.enabled == y.enabled
            && dx.enabled == dy.enabled,
        (ScopeInfo::System(x), ScopeInfo::System(y)) => x@ == y@,
        (ScopeInfo::TrustProject(x), ScopeInfo::TrustProject(y)) => x.trust@ == y.trust@,
        (ScopeInfo::Unscoped, ScopeInfo::Unscoped) => true,
        _ => false,
    }
}

impl PartialEq for ScopeInfo {
    fn eq(&self, other: &Self) -> (res: bool) {
        match (self, other) {
            (ScopeInfo::Domain(a), ScopeInfo::Domain(b)) => a.id == b.id && a.enabled == b.enabled,
            (
                ScopeInfo::Project { project: a, project_domain: domain_a },
                ScopeInfo::Project { project: b, project_domain: domain_b },
            ) => a.id == b.id && a.domain_id == b.domain_id && a.enabled == b.enabled
                && domain_a.enabled == domain_b.enabled,
            (ScopeInfo::System(a), ScopeInfo::System(b)) => *a == *b,
            (ScopeInfo::TrustProject(a), ScopeInfo::TrustProject(b)) => a.trust.same_as(&b.trust),
            (ScopeInfo::Unscoped, ScopeInfo::Unscoped) => true,
            _ => false,
        }
    }
}

impl vstd::std_specs::cmp::PartialEqSpecImpl for ScopeInfo {
    open spec fn obeys_eq_spec() -> bool {
        true
    }

    open spec fn eq_spec(&self, other: &ScopeInfo) -> bool {
        same_scope(*self, *other)
    }
}

/// The outcome of validating a scope: the targeted project and domain exist
/// (are given) and are enabled; system and unscoped are always valid.
pub open spec fn scope_check(s: ScopeInfo) -> Result<(), AuthError> {
    match s {
        ScopeInfo::Domain(d) => if !d.enabled {
            Err(AuthError::DomainDisabled(d.id@))
        } else {
            Ok(())
        },
        ScopeInfo::Project { project, project_domain } => if !project.enabled {
            Err(AuthError::ProjectDisabled(project.id@))
        } else if !project_domain.enabled {
            Err(AuthError::DomainDisabled(project_domain.id@))
        } else {
            Ok(())
        },
        ScopeInfo::System(_) => Ok(()),
        ScopeInfo::TrustProject(t) => if !t.project.enabled {
            Err(AuthError::ProjectDisabled(t.project.id@))
        } else if !t.project_domain.enabled {
            Err(AuthError::DomainDisabled(t.project_domain.id@))
        } else {
            Ok(())
        },
        ScopeInfo::Unscoped => Ok(()),
    }
}

impl ScopeInfo {
    /// Validates that the scope-targeted resources are enabled.
    pub fn validate(&self) -> (res: Result<(), AuthenticationError>)
        ensures
            unit_view(res) == scope_check(*self),
    {
        match self {
            ScopeInfo::Domain(domain) => {
                if !domain.enabled {
                    return Err(AuthenticationError::DomainDisabled(domain.id.clone()));
                }
            },
            ScopeInfo::Project { project, project_domain } => {
                if !project.enabled {
                    return Err(AuthenticationError::ProjectDisabled(project.id.clone()));
                }
                if !project_domain.enabled {
                    return Err(AuthenticationError::DomainDisabled(project_domain.id.clone()));
                }
            },
            ScopeInfo::System(_) => {},
            ScopeInfo::TrustProject(tpi) => {
                if !tpi.project.enabled {
                    return Err(AuthenticationError::ProjectDisabled(tpi.project.id.clone()));
                }
                if !tpi.project_domain.enabled {
                    return Err(AuthenticationError::DomainDisabled(tpi.project_domain.id.clone()));
                }
            },
            ScopeInfo::Unscoped => {},
        }
        Ok(())
    }
}

/// Authorization information: a scope and the effective roles on it.
pub struct AuthzInfo {
    /// Effective roles on the authorization scope.
    pub roles: Option<Vec<RoleRef>>,
    /// Scope information.
    pub scope: ScopeInfo,
}

/// The roles of an authorization after appending `extra`.
pub open spec fn roles_appended(roles: Option<Vec<RoleRef>>, extra: Seq<RoleRefView>) -> Seq<RoleRefView> {
    match roles {
        Some(r) => role_views(r@) + extra,
        None => extra,
    }
}

impl AuthzInfo {
    /// Returns the effective roles resolved for this authorization scope.
    pub fn effective_roles(&self) -> (res: Option<&[RoleRef]>)
        ensures
            match self.roles {
                Some(r) => res is Some && res->0@ == r@,
                None => res is None,
            },
    {
        match &self.roles {
            Some(r) => Some(r.as_slice()),
            None => None,
        }
    }

    /// Sets the effective roles, replacing any existing value.
    pub fn set_roles(&mut self, roles: Vec<RoleRef>)
        ensures
            *final(self) == (AuthzInfo { roles: Some(roles), ..*old(self) }),
    {
        self.roles = Some(roles);
    }

    /// Appends roles to the authorization; when no roles are set yet, starts
    /// from an empty list.
    pub fn roles(&mut self, items: Vec<RoleRef>) -> (res: &mut Self)
        ensures
            res.scope == old(self).scope,
            res.roles is Some,
            role_views(res.roles->0@) == roles_appended(old(self).roles, role_views(items@)),
            *final(self) == *final(res),
    {
        let ghost incoming = role_views(items@);
        let mut items = items;
        let mut current = match self.roles.take() {
            Some(r) => r,
            None => Vec::new(),
        };
        let ghost start = role_views(current@);
        current.append(&mut items);
        proof {
            assert(role_views(current@) =~= roles_appended(old(self).roles, incoming));
        }
        self.roles = Some(current);
        self
    }

    /// Appends the roles of role assignments to the authorization. The
    /// conversion of an assignment into a role reference cannot fail, so the
    /// result is always `Ok`.
    pub fn try_set_roles(&mut self, assignments: Vec<crate::assignment::Assignment>) -> (res: Result<(), AuthenticationError>)
        ensures
            res is Ok,
            final(self).scope == old(self).scope,
            final(self).roles is Some,
            role_views(final(self).roles->0@) == roles_appended(
                old(self).roles,
                crate::assignment::assignment_views(assignments@).map_values(
                    |a: crate::assignment::AssignmentView| crate::assignment::assignment_role_ref(a),
                ),
            ),
    {
        let mut converted: Vec<RoleRef> = Vec::new();
        let mut rest = assignments;
        let ghost all = rest@;
        let n = rest.len();
        let mut i: usize = 0;
        while rest.len() > 0
            invariant
                rest@ == all.subrange(i as int, all.len() as int),
                i + rest@.len() == all.len(),
                all.len() == n,
                role_views(converted@) == crate::assignment::assignment_views(all.subrange(0, i as int)).map_values(
                    |a: crate::assignment::AssignmentView| crate::assignment::assignment_role_ref(a),
                ),
            decreases rest.len(),
        {
            let a = rest.remove(0);
            let ghost av = a@;
            let ghost before = converted@;
            assert(all.subrange(0, i + 1) =~= all.subrange(0, i as int).push(a));
            let r = a.into_role_ref();
            converted.push(r);
            assert(role_views(converted@) =~= role_views(before).push(crate::assignment::assignment_role_ref(av)));
            i += 1;
            assert(role_views(converted@) =~= crate::assignment::assignment_views(all.subrange(0, i as int)).map_values(
                |a: crate::assignment::AssignmentView| crate::assignment::assignment_role_ref(a),
            ));
        }
        assert(all.subrange(0, i as int) =~= all);
        self.roles(converted);
        Ok(())
    }
}

} // verus!

verus! {

/// Security context of an operation: how and as whom it was authenticated,
/// and the authorization bound to it.
pub struct SecurityContext {
    /// Audit IDs.
    audit_ids: Vec<String>,
    /// Authentication context (how the authentication was performed).
    authentication_context: AuthenticationContext,
    /// Authentication methods used to establish the context, each once.
    auth_methods: Vec<String>,
    /// Authorization scope of the context.
    authorization: Option<AuthzInfo>,
    /// Authentication expiration, in seconds since the epoch.
    expires_at: Option<i64>,
    /// Interface the connection was established on.
    interface: Interface,
    /// Whether the context is established for the admin.
    is_admin: bool,
    /// Identity information.
    principal: PrincipalInfo,
    /// Token restriction.
    token_restriction: Option<TokenRestriction>,
    /// Original token used for authentication.
    token: Option<FernetToken>,
}

/// What a [`SecurityContext`] holds: its fields, read through `@`.
pub struct SecurityContextView {
    pub audit_ids: Vec<String>,
    pub authentication_context: AuthenticationContext,
    pub auth_methods: Vec<String>,
    pub authorization: Option<AuthzInfo>,
    pub expires_at: Option<i64>,
    pub interface: Interface,
    pub is_admin: bool,
    pub principal: PrincipalInfo,
    pub token_restriction: Option<TokenRestriction>,
    pub token: Option<FernetToken>,
}

impl View for SecurityContext {
    type V = SecurityContextView;

    closed spec fn view(&self) -> SecurityContextView {
        SecurityContextView { audit_ids: self.audit_ids, authentication_context: self.authentication_context, auth_methods: self.auth_methods, authorization: self.authorization, expires_at: self.expires_at, interface: self.interface, is_admin: self.is_admin, principal: self.principal, token_restriction: self.token_restriction, token: self.token }
    }
}

/// Sets the user's domain on a user principal whose domain is not set.
fn put_user_domain(p: &mut PrincipalInfo, domain: Domain)
    ensures
        match old(p).identity {
            IdentityInfo::User(u) => if u.user_domain is None {
                *final(p) == (PrincipalInfo {
                    identity: IdentityInfo::User(UserIdentityInfo { user_domain: Some(domain), ..u }),
                })
            } else {
                *final(p) == *old(p)
            },
            _ => *final(p) == *old(p),
        },
    no_unwind
{
    match &mut p.identity {
        IdentityInfo::User(user_info) => {
            let unset = match &user_info.user_domain {
                None => true,
                Some(_) => false,
            };
            if unset {
                user_info.user_domain = Some(domain);
            }
        },
        _ => {},
    }
}

/// Sets the roles of a bound authorization.
fn put_roles(a: &mut Option<AuthzInfo>, roles: Vec<RoleRef>)
    ensures
        match *old(a) {
            Some(x) => *final(a) == Some(AuthzInfo { roles: Some(roles), ..x }),
            None => *final(a) == *old(a),
        },
    no_unwind
{
    match a {
        Some(authz) => {
            authz.roles = Some(roles);
        },
        None => {},
    }
}

/// Two contexts that hold the same fields are the same context.
pub proof fn lemma_context_view_injective(a: SecurityContext, b: SecurityContext)
    ensures
        a@ == b@ ==> a == b,
{
}

/// The outcome of validating a security context: the principal is valid,
/// and an application credential or trust used for the authentication is
/// bound to the principal's user.
pub open spec fn context_check(ctx: SecurityContextView) -> Result<(), AuthError> {
    match identity_check(ctx.principal.identity) {
        Err(e) => Err(e),
        Ok(()) => match ctx.authentication_context {
            AuthenticationContext::ApplicationCredential { application_credential, .. } => {
                if application_credential.user_id@ != principal_user_id(ctx.principal) {
                    Err(AuthError::AuthzPrincipalMismatch)
                } else {
                    Ok(())
                }
            },
            AuthenticationContext::Trust { trust, .. } => {
                if trust.trustee_user_id@ != principal_user_id(ctx.principal) {
                    Err(AuthError::AuthzPrincipalMismatch)
                } else {
                    Ok(())
                }
            },
            _ => Ok(()),
        },
    }
}

/// Whether a token restriction lets the context reach the scope: with a
/// restriction only a project scope is reachable, and only the restricted
/// project when the restriction names one.
pub open spec fn restriction_allows(tr: Option<TokenRestriction>, scope: ScopeInfo) -> bool {
    match scope {
        ScopeInfo::Project { project, .. } => match tr {
            Some(t) => match t.project_id {
                Some(pid) => pid@ == project.id@,
                None => true,
            },
            None => true,
        },
        _ => tr is None,
    }
}

/// Whether the authentication method lets the context reach the scope.
pub open spec fn method_allows(c: AuthenticationContext, scope: ScopeInfo) -> bool {
    match scope {
        ScopeInfo::Domain(_) | ScopeInfo::Unscoped => match c {
            AuthenticationContext::Oidc { .. } | AuthenticationContext::Password
            | AuthenticationContext::Spiffe(_) | AuthenticationContext::Token(_)
            | AuthenticationContext::WebauthN => true,
            _ => false,
        },
        ScopeInfo::Project { project, .. } => match c {
            AuthenticationContext::ApplicationCredential { application_credential, .. } => {
                application_credential.project_id@ == project.id@
            },
            AuthenticationContext::Trust { .. } => false,
            _ => true,
        },
        ScopeInfo::TrustProject(_) => match c {
            AuthenticationContext::Password | AuthenticationContext::Token(_) => true,
            _ => false,
        },
        ScopeInfo::System(_) => match c {
            AuthenticationContext::Password | AuthenticationContext::Spiffe(_)
            | AuthenticationContext::Token(_) | AuthenticationContext::WebauthN => true,
            _ => false,
        },
    }
}

/// The outcome of the scope boundaries check: refused when the token
/// restriction forbids the scope; a trust context asking for a trust scope
/// is forbidden; otherwise allowed exactly when the method allows it.
pub open spec fn scope_boundaries(ctx: SecurityContextView, scope: ScopeInfo) -> Result<(), AuthError> {
    if !restriction_allows(ctx.token_restriction, scope) {
        Err(AuthError::ScopeNotAllowed)
    } else if scope is TrustProject && ctx.authentication_context is Trust {
        Err(AuthError::Forbidden)
    } else if method_allows(ctx.authentication_context, scope) {
        Ok(())
    } else {
        Err(AuthError::ScopeNotAllowed)
    }
}

/// Whether an authorization is resolved: unscoped, or scoped with at least
/// one role.
pub open spec fn authorization_resolved(a: AuthzInfo) -> bool {
    a.scope is Unscoped || (a.roles is Some && a.roles->0@.len() > 0)
}

/// The outcome of the final check before policy enforcement.
pub open spec fn resolution_check(ctx: SecurityContextView) -> Result<(), AuthError> {
    match context_check(ctx) {
        Err(e) => Err(e),
        Ok(()) => match ctx.authorization {
            None => Err(AuthError::SecurityContextNotResolved),
            Some(a) => if authorization_resolved(a) {
                Ok(())
            } else {
                Err(AuthError::SecurityContextNotResolved)
            },
        },
    }
}

/// The expiry after taking a new candidate into account: the latest wins.
pub open spec fn later_expiry(current: Option<i64>, candidate: i64) -> Option<i64> {
    match current {
        None => Some(candidate),
        Some(c) => if candidate >= c {
            Some(candidate)
        } else {
            Some(c)
        },
    }
}

impl SecurityContext {
    /// Every context carries at least one audit ID, the fresh one generated
    /// when it was constructed. Every constructor establishes it and every
    /// method keeps it.
    #[verifier::type_invariant]
    spec fn has_audit_id(self) -> bool {
        self.audit_ids@.len() >= 1
    }

    /// Returns the audit IDs associated with this security context: always
    /// at least one.
    pub fn audit_ids(&self) -> (res: &Vec<String>)
        ensures
            *res == self@.audit_ids,
            res@.len() >= 1,
    {
        proof {
            use_type_invariant(self);
        }
        &self.audit_ids
    }

    /// Appends the audit ID of an additional result and the audit IDs of
    /// its parent token.
    fn extend_audit_ids_from_auth_result(&mut self, auth: &AuthenticationResult)
        ensures
            final(self)@.audit_ids@ == old(self)@.audit_ids@ + seq![auth.audit_id] + token_audit_ids(
                auth.context,
            ),
            final(self)@ == (SecurityContextView { audit_ids: final(self)@.audit_ids, ..old(self)@ }),
    {
        proof {
            use_type_invariant(&*self);
        }
        let mut ids = crate::util::clone_strings(&self.audit_ids);
        ids.push(auth.audit_id.clone());
        if let AuthenticationContext::Token(token) = &auth.context {
            let mut more = crate::util::clone_strings(token.audit_ids());
            ids.append(&mut more);
        }
        assert(ids@ =~= old(self).audit_ids@ + seq![auth.audit_id] + token_audit_ids(auth.context));
        self.audit_ids = ids;
    }

    /// Returns the authentication context that produced this context.
    pub fn authentication_context(&self) -> (res: &AuthenticationContext)
        ensures
            *res == self@.authentication_context,
    {
        &self.authentication_context
    }

    /// Returns the authentication methods used to establish this context.
    pub fn auth_methods(&self) -> (res: &Vec<String>)
        ensures
            *res == self@.auth_methods,
    {
        &self.auth_methods
    }

    /// Extends the authentication methods with further ones, each kept once.
    fn extend_auth_methods(&mut self, methods: Vec<String>)
        requires
            strs(old(self)@.auth_methods@).no_duplicates(),
        ensures
            strs(final(self)@.auth_methods@).no_duplicates(),
            strs(final(self)@.auth_methods@).to_set() == strs(old(self)@.auth_methods@).to_set().union(
                strs(methods@).to_set(),
            ),
            final(self)@ == (SecurityContextView { auth_methods: final(self)@.auth_methods, ..old(self)@ }),
    {
        proof {
            use_type_invariant(&*self);
        }
        let mut all = crate::util::clone_strings(&self.auth_methods);
        crate::util::extend_unique(&mut all, methods);
        self.auth_methods = all;
    }

    /// Returns the identity of the authenticated principal.
    pub fn principal(&self) -> (res: &PrincipalInfo)
        ensures
            *res == self@.principal,
    {
        &self.principal
    }

    /// Populates the user's domain on the principal's identity; a no-op when
    /// the principal is not a user or the domain is already set.
    pub fn populate_user_domain(&mut self, domain: Domain)
        ensures
            match old(self)@.principal.identity {
                IdentityInfo::User(u) => if u.user_domain is None {
                    final(self)@ == (SecurityContextView {
                        principal: PrincipalInfo {
                            identity: IdentityInfo::User(
                                UserIdentityInfo { user_domain: Some(domain), ..u },
                            ),
                        },
                        ..old(self)@
                    })
                } else {
                    final(self)@ == old(self)@
                },
                _ => final(self)@ == old(self)@,
            },
    {
        proof {
            use_type_invariant(&*self);
        }
        put_user_domain(&mut self.principal, domain);
    }

    /// Returns the token for this context, if one was set.
    pub fn token(&self) -> (res: Option<&FernetToken>)
        ensures
            match self@.token {
                Some(t) => res == Some(&t),
                None => res is None,
            },
    {
        self.token.as_ref()
    }

    /// Sets the token on this context.
    pub fn set_token(&mut self, token: FernetToken)
        ensures
            final(self)@ == (SecurityContextView { token: Some(token), ..old(self)@ }),
    {
        proof {
            use_type_invariant(&*self);
        }
        self.token = Some(token);
    }

    /// Returns the authorization information, if bound.
    pub fn authorization(&self) -> (res: Option<&AuthzInfo>)
        ensures
            match self@.authorization {
                Some(a) => res == Some(&a),
                None => res is None,
            },
    {
        self.authorization.as_ref()
    }

    /// Sets the effective roles on the authorization scope; a no-op when no
    /// authorization is bound.
    pub fn set_effective_roles(&mut self, roles: Vec<RoleRef>)
        ensures
            match old(self)@.authorization {
                Some(a) => final(self)@ == (SecurityContextView {
                    authorization: Some(AuthzInfo { roles: Some(roles), ..a }),
                    ..old(self)@
                }),
                None => final(self)@ == old(self)@,
            },
    {
        proof {
            use_type_invariant(&*self);
        }
        put_roles(&mut self.authorization, roles);
    }

    /// Sets the authorization information with scope and roles, replacing
    /// whatever authorization was bound.
    pub fn set_authorization(&mut self, authz: AuthzInfo)
        ensures
            final(self)@ == (SecurityContextView { authorization: Some(authz), ..old(self)@ }),
    {
        proof {
            use_type_invariant(&*self);
        }
        self.authorization = Some(authz);
    }

    /// Returns the authentication expiration time, if set.
    pub fn expires_at(&self) -> (res: Option<i64>)
        ensures
            res == self@.expires_at,
    {
        self.expires_at
    }

    /// Whether the authenticated principal is an admin.
    pub fn is_admin(&self) -> (res: bool)
        ensures
            res == self@.is_admin,
    {
        self.is_admin
    }

    /// Marks the context as representing the administrative user.
    pub fn set_is_admin(&mut self)
        ensures
            final(self)@ == (SecurityContextView { is_admin: true, ..old(self)@ }),
    {
        proof {
            use_type_invariant(&*self);
        }
        self.is_admin = true;
    }

    /// Updates the expiration: the latest expiry wins.
    fn update_expires_at(&mut self, expires: i64)
        ensures
            final(self)@ == (SecurityContextView {
                expires_at: later_expiry(old(self).expires_at, expires),
                ..old(self)@
            }),
    {
        proof {
            use_type_invariant(&*self);
        }
        let replace = match self.expires_at {
            None => true,
            Some(global_expires) => expires >= global_expires,
        };
        if replace {
            self.expires_at = Some(expires);
        }
    }

    /// Returns the token restriction, if one was applied.
    pub fn token_restriction(&self) -> (res: Option<&TokenRestriction>)
        ensures
            match self@.token_restriction {
                Some(t) => res == Some(&t),
                None => res is None,
            },
    {
        self.token_restriction.as_ref()
    }

    /// Sets the token restriction on this context.
    pub fn set_token_restriction(&mut self, tr: TokenRestriction)
        ensures
            final(self)@ == (SecurityContextView { token_restriction: Some(tr), ..old(self)@ }),
    {
        proof {
            use_type_invariant(&*self);
        }
        self.token_restriction = Some(tr);
    }

    /// A builder for contexts in tests and mocks.
    pub fn test_build() -> (res: SecurityContextTestingBuilder)
        ensures
            res.authentication_context is None && res.principal is None && res.token is None
                && res.authorization is None && res.expires_at is None
                && res.token_restriction is None,
    {
        SecurityContextTestingBuilder::new()
    }

    /// Validates the authentication information: the principal is valid,
    /// and an application credential or trust is bound to the principal.
    pub fn validate(&self) -> (res: Result<(), AuthenticationError>)
        ensures
            unit_view(res) == context_check(self@),
    {
        self.principal.validate()?;
        match &self.authentication_context {
            AuthenticationContext::ApplicationCredential { application_credential, .. } => {
                if !(application_credential.user_id == self.principal.get_user_id()) {
                    return Err(AuthenticationError::AuthzPrincipalMismatch);
                }
            },
            AuthenticationContext::Trust { trust, .. } => {
                if !(trust.trustee_user_id == self.principal.get_user_id()) {
                    return Err(AuthenticationError::AuthzPrincipalMismatch);
                }
            },
            _ => {},
        }
        Ok(())
    }

    /// Whether the session has expired at `now` (seconds since the epoch):
    /// expired when an expiry is set and lies before `now`.
    pub fn is_expired(&self, now: i64) -> (res: bool)
        ensures
            res == (self@.expires_at is Some && self@.expires_at->0 < now),
    {
        match self.expires_at {
            Some(expiry) => expiry < now,
            None => false,
        }
    }

    /// Validates whether the scope is reachable with this context: the
    /// authentication method and the token restriction bound what can be
    /// granted. No check of the principal's roles on the scope is made.
    pub fn validate_scope_boundaries(&self, scope: &ScopeInfo) -> (res: Result<(), AuthenticationError>)
        ensures
            unit_view(res) == scope_boundaries(self@, *scope),
    {
        match scope {
            ScopeInfo::Domain(_domain) => {
                if self.token_restriction.is_some() {
                    return Err(AuthenticationError::ScopeNotAllowed);
                }
                match &self.authentication_context {
                    AuthenticationContext::ApplicationCredential { .. } => Err(
                        AuthenticationError::ScopeNotAllowed,
                    ),
                    AuthenticationContext::Oidc { .. } => Ok(()),
                    AuthenticationContext::K8s(_) => Err(AuthenticationError::ScopeNotAllowed),
                    AuthenticationContext::Password => Ok(()),
                    AuthenticationContext::Spiffe(_) => Ok(()),
                    AuthenticationContext::Token(_) => Ok(()),
                    AuthenticationContext::Trust { .. } => Err(AuthenticationError::ScopeNotAllowed),
                    AuthenticationContext::WebauthN => Ok(()),
                }
            },
            ScopeInfo::Project { project, .. } => {
                if let Some(token_restriction) = &self.token_restriction {
                    if let Some(tr_pid) = &token_restriction.project_id {
                        if !(*tr_pid == project.id) {
                            return Err(AuthenticationError::ScopeNotAllowed);
                        }
                    }
                }
                match &self.authentication_context {
                    AuthenticationContext::ApplicationCredential { application_credential, .. } => {
                        if !(application_credential.project_id == project.id) {
                            Err(AuthenticationError::ScopeNotAllowed)
                        } else {
                            Ok(())
                        }
                    },
                    AuthenticationContext::Oidc { .. } => Ok(()),
                    AuthenticationContext::K8s(_) => Ok(()),
                    AuthenticationContext::Password => Ok(()),
                    AuthenticationContext::Spiffe(_) => Ok(()),
                    AuthenticationContext::Token(_) => Ok(()),
                    AuthenticationContext::Trust { .. } => Err(AuthenticationError::ScopeNotAllowed),
                    AuthenticationContext::WebauthN => Ok(()),
                }
            },
            ScopeInfo::TrustProject(_) => {
                if self.token_restriction.is_some() {
                    return Err(AuthenticationError::ScopeNotAllowed);
                }
                match &self.authentication_context {
                    AuthenticationContext::ApplicationCredential { .. } => Err(
                        AuthenticationError::ScopeNotAllowed,
                    ),
                    AuthenticationContext::Oidc { .. } => Err(AuthenticationError::ScopeNotAllowed),
                    AuthenticationContext::K8s(_) => Err(AuthenticationError::ScopeNotAllowed),
                    AuthenticationContext::Password => Ok(()),
                    AuthenticationContext::Spiffe(_) => Err(AuthenticationError::ScopeNotAllowed),
                    AuthenticationContext::Token(_) => Ok(()),
                    AuthenticationContext::Trust { .. } => Err(AuthenticationError::Forbidden),
                    AuthenticationContext::WebauthN => Err(AuthenticationError::ScopeNotAllowed),
                }
            },
            ScopeInfo::System(_system) => {
                if self.token_restriction.is_some() {
                    return Err(AuthenticationError::ScopeNotAllowed);
                }
                match &self.authentication_context {
                    AuthenticationContext::ApplicationCredential { .. } => Err(
                        AuthenticationError::ScopeNotAllowed,
                    ),
                    AuthenticationContext::Oidc { .. } => Err(AuthenticationError::ScopeNotAllowed),
                    AuthenticationContext::K8s(_) => Err(AuthenticationError::ScopeNotAllowed),
                    AuthenticationContext::Password => Ok(()),
                    AuthenticationContext::Spiffe(_) => Ok(()),
                    AuthenticationContext::Token(_) => Ok(()),
                    AuthenticationContext::Trust { .. } => Err(AuthenticationError::ScopeNotAllowed),
                    AuthenticationContext::WebauthN => Ok(()),
                }
            },
            ScopeInfo::Unscoped => {
                if self.token_restriction.is_some() {
                    return Err(AuthenticationError::ScopeNotAllowed);
                }
                match &self.authentication_context {
                    AuthenticationContext::ApplicationCredential { .. } => Err(
                        AuthenticationError::ScopeNotAllowed,
                    ),
                    AuthenticationContext::Oidc { .. } => Ok(()),
                    AuthenticationContext::K8s(_) => Err(AuthenticationError::ScopeNotAllowed),
                    AuthenticationContext::Password => Ok(()),
                    AuthenticationContext::Spiffe(_) => Ok(()),
                    AuthenticationContext::Token(_) => Ok(()),
                    AuthenticationContext::Trust { .. } => Err(AuthenticationError::ScopeNotAllowed),
                    AuthenticationContext::WebauthN => Ok(()),
                }
            },
        }
    }

    /// Sets the authorization scope after checking that it is reachable from
    /// this context; the new authorization has no roles yet. On refusal the
    /// context is unchanged.
    pub fn set_authorization_scope(&mut self, scope: ScopeInfo) -> (res: Result<(), AuthenticationError>)
        ensures
            unit_view(res) == scope_boundaries(old(self)@, scope),
            res is Ok ==> final(self)@ == (SecurityContextView {
                authorization: Some(AuthzInfo { roles: None, scope }),
                ..old(self)@
            }),
            res is Err ==> final(self)@ == old(self)@,
    {
        proof {
            use_type_invariant(&*self);
        }
        self.validate_scope_boundaries(&scope)?;
        self.authorization = Some(AuthzInfo { roles: None, scope });
        Ok(())
    }

    /// Verifies that all required fields are populated before policy
    /// enforcement: the context is valid, an authorization is bound, and a
    /// scoped authorization has at least one role.
    pub fn fully_resolved(&self) -> (res: Result<(), AuthenticationError>)
        ensures
            unit_view(res) == resolution_check(self@),
    {
        self.validate()?;
        match &self.authorization {
            None => Err(AuthenticationError::SecurityContextNotResolved),
            Some(authz) => {
                let unscoped = match authz.scope {
                    ScopeInfo::Unscoped => true,
                    _ => false,
                };
                let has_roles = match &authz.roles {
                    Some(r) => r.len() > 0,
                    None => false,
                };
                if !unscoped && !has_roles {
                    Err(AuthenticationError::SecurityContextNotResolved)
                } else {
                    Ok(())
                }
            },
        }
    }
}

/// Builder for constructing a [`SecurityContext`] in test code.
pub struct SecurityContextTestingBuilder {
    pub authentication_context: Option<AuthenticationContext>,
    pub principal: Option<PrincipalInfo>,
    pub token: Option<FernetToken>,
    pub authorization: Option<AuthzInfo>,
    pub expires_at: Option<i64>,
    pub token_restriction: Option<TokenRestriction>,
}

impl SecurityContextTestingBuilder {
    /// A builder with nothing set.
    pub fn new() -> (res: Self)
        ensures
            res.authentication_context is None && res.principal is None && res.token is None
                && res.authorization is None && res.expires_at is None
                && res.token_restriction is None,
    {
        SecurityContextTestingBuilder {
            authentication_context: None,
            principal: None,
            token: None,
            authorization: None,
            expires_at: None,
            token_restriction: None,
        }
    }

    /// Sets the authentication context.
    pub fn authentication_context(self, ctx: AuthenticationContext) -> (res: Self)
        ensures
            res == (SecurityContextTestingBuilder { authentication_context: Some(ctx), ..self }),
    {
        SecurityContextTestingBuilder { authentication_context: Some(ctx), ..self }
    }

    /// Sets the principal.
    pub fn principal(self, principal: PrincipalInfo) -> (res: Self)
        ensures
            res == (SecurityContextTestingBuilder { principal: Some(principal), ..self }),
    {
        SecurityContextTestingBuilder { principal: Some(principal), ..self }
    }

    /// Sets the token.
    pub fn token(self, token: FernetToken) -> (res: Self)
        ensures
            res == (SecurityContextTestingBuilder { token: Some(token), ..self }),
    {
        SecurityContextTestingBuilder { token: Some(token), ..self }
    }

    /// Sets the authorization.
    pub fn authorization(self, authz: AuthzInfo) -> (res: Self)
        ensures
            res == (SecurityContextTestingBuilder { authorization: Some(authz), ..self }),
    {
        SecurityContextTestingBuilder { authorization: Some(authz), ..self }
    }

    /// Sets the expiry.
    pub fn expires_at(self, expires_at: i64) -> (res: Self)
        ensures
            res == (SecurityContextTestingBuilder { expires_at: Some(expires_at), ..self }),
    {
        SecurityContextTestingBuilder { expires_at: Some(expires_at), ..self }
    }

    /// Sets the token restriction.
    pub fn token_restriction(self, tr: TokenRestriction) -> (res: Self)
        ensures
            res == (SecurityContextTestingBuilder { token_restriction: Some(tr), ..self }),
    {
        SecurityContextTestingBuilder { token_restriction: Some(tr), ..self }
    }

    /// Builds the context; the authentication context and the principal
    /// are required.
    pub fn build(self) -> (res: SecurityContext)
        requires
            self.authentication_context is Some,
            self.principal is Some,
        ensures
            res@.audit_ids@.len() == 1,
            res@.audit_ids@[0]@.len() == 22,
            res@.authentication_context == self.authentication_context->0,
            strs(res@.auth_methods@).to_set() == context_methods(self.authentication_context->0),
            strs(res@.auth_methods@).no_duplicates(),
            res@.principal == self.principal->0,
            res@.authorization == self.authorization,
            res@.expires_at == self.expires_at,
            !res@.is_admin,
            res@.interface == Interface::Public,
            res@.token_restriction == self.token_restriction,
            res@.token == self.token,
    {
        let authentication_context = self.authentication_context.unwrap();
        let auth_methods = authentication_context.methods();
        let mut audit_ids: Vec<String> = Vec::new();
        audit_ids.push(new_audit_id());
        SecurityContext {
            audit_ids,
            authentication_context,
            auth_methods,
            principal: self.principal.unwrap(),
            authorization: self.authorization,
            expires_at: self.expires_at,
            is_admin: false,
            interface: Interface::Public,
            token_restriction: self.token_restriction,
            token: self.token,
        }
    }
}

/// Result of a single-method authentication.
pub struct AuthenticationResult {
    /// Audit ID associated with the authentication.
    pub audit_id: String,
    /// The context of this factor.
    pub context: AuthenticationContext,
    /// Authentication expiration, in seconds since the epoch.
    pub expires_at: Option<i64>,
    /// The identity this provider identified/verified.
    pub principal: PrincipalInfo,
    /// Authorization information extracted from the authentication.
    pub authorization: Option<AuthzInfo>,
    /// Token restriction rules tied to the authentication.
    pub token_restriction: Option<TokenRestriction>,
}

} // verus!

verus! {

/// The audit IDs one result contributes: its own, then those of its parent
/// token.
pub open spec fn result_audit_ids(r: AuthenticationResult) -> Seq<String> {
    seq![r.audit_id] + token_audit_ids(r.context)
}

/// Whether `ctx` is the context built from the single result `r`.
pub open spec fn context_of_result(ctx: SecurityContext, r: AuthenticationResult) -> bool {
    &&& ctx@.audit_ids@ == result_audit_ids(r)
    &&& ctx@.authentication_context == r.context
    &&& strs(ctx@.auth_methods@).to_set() == context_methods(r.context)
    &&& strs(ctx@.auth_methods@).no_duplicates()
    &&& ctx@.authorization == r.authorization
    &&& ctx@.expires_at == r.expires_at
    &&& ctx@.interface == Interface::Public
    &&& !ctx@.is_admin
    &&& ctx@.principal == r.principal
    &&& ctx@.token_restriction == r.token_restriction
    &&& ctx@.token is None
}

/// All audit IDs of a sequence of results, in order.
pub open spec fn all_audit_ids(rs: Seq<AuthenticationResult>) -> Seq<String>
    decreases rs.len(),
{
    if rs.len() == 0 {
        Seq::empty()
    } else {
        all_audit_ids(rs.drop_last()) + result_audit_ids(rs.last())
    }
}

/// The latest expiry among the results that carry one.
pub open spec fn latest_expiry(rs: Seq<AuthenticationResult>) -> Option<i64>
    decreases rs.len(),
{
    if rs.len() == 0 {
        None
    } else {
        let prev = latest_expiry(rs.drop_last());
        match rs.last().expires_at {
            Some(e) => later_expiry(prev, e),
            None => prev,
        }
    }
}

/// The first authorization carried by any of the results.
pub open spec fn first_authorization(rs: Seq<AuthenticationResult>) -> Option<AuthzInfo>
    decreases rs.len(),
{
    if rs.len() == 0 {
        None
    } else {
        let prev = first_authorization(rs.drop_last());
        if prev is Some {
            prev
        } else {
            rs.last().authorization
        }
    }
}

/// The union of the authentication methods of the results.
pub open spec fn all_methods(rs: Seq<AuthenticationResult>) -> Set<Seq<char>>
    decreases rs.len(),
{
    if rs.len() == 0 {
        Set::empty()
    } else {
        all_methods(rs.drop_last()).union(context_methods(rs.last().context))
    }
}

/// Whether all results name the same principal as the first one.
pub open spec fn same_principals(rs: Seq<AuthenticationResult>) -> bool {
    forall|i: int| 0 < i < rs.len() ==> (#[trigger] rs[i]).principal@ == rs[0].principal@
}

/// Whether `ctx` is the context aggregated from the non-empty results `rs`
/// of a multi-factor authentication.
pub open spec fn context_of_results(ctx: SecurityContext, rs: Seq<AuthenticationResult>) -> bool {
    &&& ctx@.audit_ids@ == all_audit_ids(rs)
    &&& ctx@.authentication_context == rs[0].context
    &&& strs(ctx@.auth_methods@).to_set() == all_methods(rs)
    &&& strs(ctx@.auth_methods@).no_duplicates()
    &&& ctx@.authorization == first_authorization(rs)
    &&& ctx@.expires_at == latest_expiry(rs)
    &&& ctx@.interface == Interface::Public
    &&& !ctx@.is_admin
    &&& ctx@.principal == rs[0].principal
    &&& ctx@.token_restriction == rs[0].token_restriction
    &&& ctx@.token is None
}

impl SecurityContext {
    /// Constructs a single-method context from a single authentication
    /// result: its audit ID followed by the parent token's audit IDs, its
    /// context, methods, principal, expiry, restriction and authorization.
    pub fn try_from_result(value: AuthenticationResult) -> (res: Result<SecurityContext, AuthenticationError>)
        ensures
            res is Ok,
            res matches Ok(ctx) ==> context_of_result(ctx, value),
    {
        let ghost v = value;
        let auth_methods = value.context.methods();
        let mut audit_ids: Vec<String> = Vec::new();
        audit_ids.push(value.audit_id);
        if let AuthenticationContext::Token(token) = &value.context {
            let mut more = crate::util::clone_strings(token.audit_ids());
            audit_ids.append(&mut more);
        }
        assert(audit_ids@ =~= result_audit_ids(v));
        Ok(SecurityContext {
            audit_ids,
            authentication_context: value.context,
            auth_methods,
            authorization: value.authorization,
            expires_at: value.expires_at,
            interface: Interface::Public,
            is_admin: false,
            principal: value.principal,
            token_restriction: value.token_restriction,
            token: None,
        })
    }

    /// Constructs a context from the results of a multi-factor
    /// authentication. The first result gives the principal, the context and
    /// the token restriction; all results must name the same principal.
    /// Audit IDs and methods are aggregated, the latest expiry wins and the
    /// first authorization found is kept.
    #[verifier::loop_isolation(false)]
    pub fn try_from_results(value: Vec<AuthenticationResult>) -> (res: Result<SecurityContext, AuthenticationError>)
        ensures
            value@.len() == 0 ==> (res matches Err(e) && e@ == AuthError::StructBuilder(
                "principal"@,
            )),
            value@.len() > 0 && !same_principals(value@) ==> (res matches Err(e) && e@
                == AuthError::AuthnPrincipalMismatch),
            value@.len() > 0 && same_principals(value@) ==> (res matches Ok(ctx)
                && context_of_results(ctx, value@)),
    {
        let ghost all = value@;
        let mut rest = value;
        if rest.len() == 0 {
            return Err(AuthenticationError::StructBuilder(String::from_str("principal")));
        }
        let n = rest.len();
        let first = rest.remove(0);
        let ghost first_g = first;
        let mut ctx = match Self::try_from_result(first) {
            Ok(c) => c,
            Err(e) => {
                return Err(e);
            },
        };
        proof {
            let one = all.subrange(0, 1);
            assert(one.drop_last() =~= Seq::<AuthenticationResult>::empty());
            assert(one.last() == first_g);
            assert(all_audit_ids(one.drop_last()) == Seq::<String>::empty());
            assert(all_audit_ids(one) =~= result_audit_ids(first_g));
            assert(all_methods(one.drop_last()) == Set::<Seq<char>>::empty());
            assert(all_methods(one) =~= context_methods(first_g.context));
            assert(first_authorization(one.drop_last()) is None);
            assert(first_authorization(one) == first_g.authorization);
            assert(latest_expiry(one.drop_last()) is None);
            assert(latest_expiry(one) == first_g.expires_at);
        }
        let mut i: usize = 1;
        while rest.len() > 0
            invariant
                1 <= i <= n,
                all.len() == n,
                all[0] == first_g,
                rest@ == all.subrange(i as int, n as int),
                ctx.audit_ids@ == all_audit_ids(all.subrange(0, i as int)),
                ctx.audit_ids@.len() >= 1,
                ctx.authentication_context == first_g.context,
                strs(ctx.auth_methods@).to_set() == all_methods(all.subrange(0, i as int)),
                strs(ctx.auth_methods@).no_duplicates(),
                ctx.authorization == first_authorization(all.subrange(0, i as int)),
                ctx.expires_at == latest_expiry(all.subrange(0, i as int)),
                ctx.interface == Interface::Public,
                !ctx.is_admin,
                ctx.principal == first_g.principal,
                ctx.token_restriction == first_g.token_restriction,
                ctx.token is None,
                forall|j: int| 0 < j < i ==> (#[trigger] all[j]).principal@ == all[0].principal@,
            decreases rest.len(),
        {
            let auth = rest.remove(0);
            let ghost prefix = all.subrange(0, i as int);
            assert(all.subrange(0, i + 1) =~= prefix.push(auth));
            assert(prefix.push(auth).drop_last() =~= prefix);
            if !auth.principal.same_as(&ctx.principal) {
                assert(!same_principals(all));
                return Err(AuthenticationError::AuthnPrincipalMismatch);
            }
            ctx.extend_audit_ids_from_auth_result(&auth);
            assert(ctx.audit_ids@ =~= all_audit_ids(all.subrange(0, i + 1)));
            if let Some(expires) = auth.expires_at {
                ctx.update_expires_at(expires);
            }
            ctx.extend_auth_methods(auth.context.methods());
            if ctx.authorization.is_none() {
                if auth.authorization.is_some() {
                    ctx.authorization = auth.authorization;
                }
            }
            i += 1;
        }
        assert(all.subrange(0, n as int) =~= all);
        Ok(ctx)
    }
}

/// A fresh audit ID: the URL-safe, unpadded base64 text of a random 16 byte
/// UUID (version 4), 22 characters long.
pub fn new_audit_id() -> (res: String)
    ensures
        res@.len() == 22,
{
    let bytes = crate::wrappers::uuid_v4_bytes();
    crate::wrappers::base64_url_nopad_encode(&bytes)
}

impl AuthenticationResult {
    /// A result for the given context and principal with a fresh audit ID
    /// and nothing else set.
    pub fn new(context: AuthenticationContext, principal: PrincipalInfo) -> (res: AuthenticationResult)
        ensures
            res.audit_id@.len() == 22,
            res.context == context,
            res.principal == principal,
            res.expires_at is None,
            res.authorization is None,
            res.token_restriction is None,
    {
        AuthenticationResult {
            audit_id: new_audit_id(),
            context,
            expires_at: None,
            principal,
            authorization: None,
            token_restriction: None,
        }
    }
}

/// A multi-factor authentication with a single result builds the same
/// context as the conversion of that result alone.
pub proof fn lemma_single_factor_context(ctx: SecurityContext, r: AuthenticationResult)
    ensures
        context_of_results(ctx, seq![r]) <==> context_of_result(ctx, r),
{
    let rs = seq![r];
    let e = Seq::<AuthenticationResult>::empty();
    assert(rs.drop_last() =~= e);
    assert(rs.last() == r);
    assert(all_audit_ids(e) == Seq::<String>::empty());
    assert(all_audit_ids(rs) == all_audit_ids(e) + result_audit_ids(r));
    assert(all_audit_ids(rs) =~= result_audit_ids(r));
    assert(all_methods(e) == Set::<Seq<char>>::empty());
    assert(all_methods(rs) == all_methods(e).union(context_methods(r.context)));
    assert(all_methods(rs) =~= context_methods(r.context));
    assert(first_authorization(e) is None);
    assert(first_authorization(rs) == r.authorization);
    assert(latest_expiry(e) is None);
    assert(latest_expiry(rs) == r.expires_at);
}

/// Binding a scope leaves the context unresolved until its roles are set:
/// right after [`SecurityContext::set_authorization_scope`] succeeds, a
/// valid context is resolved only for the unscoped scope.
pub proof fn lemma_scope_binding_needs_roles(ctx: SecurityContext, scope: ScopeInfo)
    requires
        scope_boundaries(ctx@, scope) is Ok,
        context_check(ctx@) is Ok,
    ensures
        ({
            let bound = SecurityContextView {
                authorization: Some(AuthzInfo { roles: None, scope }),
                ..ctx@
            };
            resolution_check(bound) == if scope is Unscoped {
                Ok::<(), AuthError>(())
            } else {
                Err(AuthError::SecurityContextNotResolved)
            }
        }),
{
    let bound = SecurityContextView { authorization: Some(AuthzInfo { roles: None, scope }), ..ctx@ };
    assert(context_check(bound) == context_check(ctx@));
}

/// A token can be rescoped wherever a password login can go: for the same
/// token restriction, a context authenticated by a token reaches exactly the
/// scopes that one authenticated by a password reaches.
pub proof fn lemma_token_reaches_like_password(
    by_token: SecurityContextView,
    by_password: SecurityContextView,
    scope: ScopeInfo,
)
    requires
        by_token.authentication_context is Token,
        by_password.authentication_context is Password,
        by_token.token_restriction == by_password.token_restriction,
    ensures
        scope_boundaries(by_token, scope) == scope_boundaries(by_password, scope),
{
}

/// Without a token restriction, a context authenticated by a password or by
/// a token reaches every scope: a domain, a project, a trust, the system,
/// or none.
pub proof fn lemma_unrestricted_login_reaches_all(ctx: SecurityContextView, scope: ScopeInfo)
    requires
        ctx.token_restriction is None,
        ctx.authentication_context is Password || ctx.authentication_context is Token,
    ensures
        scope_boundaries(ctx, scope) is Ok,
{
}

/// A token restriction only ever lets a project scope through, and only
/// the restricted project when it names one.
pub proof fn lemma_restriction_bounds_scope(ctx: SecurityContextView, scope: ScopeInfo)
    requires
        ctx.token_restriction is Some,
        scope_boundaries(ctx, scope) is Ok,
    ensures
        scope is Project,
        ctx.token_restriction->0.project_id matches Some(p) ==> p@ == scope->project.id@,
{
}

/// A context that consumed a trust reaches no scope by rescoping; asking
/// for a trust scope again is forbidden outright.
pub proof fn lemma_trust_context_reaches_nothing(ctx: SecurityContextView, scope: ScopeInfo)
    requires
        ctx.authentication_context is Trust,
    ensures
        scope_boundaries(ctx, scope) is Err,
        scope is TrustProject && ctx.token_restriction is None
            ==> scope_boundaries(ctx, scope) == Err::<(), AuthError>(AuthError::Forbidden),
{
}

/// An application credential reaches only the project it was made for.
pub proof fn lemma_app_credential_reaches_its_project(ctx: SecurityContextView, scope: ScopeInfo)
    requires
        ctx.authentication_context is ApplicationCredential,
        scope_boundaries(ctx, scope) is Ok,
    ensures
        scope matches ScopeInfo::Project { project, .. } && project.id@
            == ctx.authentication_context->application_credential.project_id@,
{
}

/// Without a token restriction, the other methods reach these scopes:
/// OIDC a domain, a project or none, but not the system or a trust; K8s only
/// a project; SPIFFE and WebAuthn a domain, a project, the system or none,
/// but not a trust.
pub proof fn lemma_other_methods_reach(ctx: SecurityContextView, scope: ScopeInfo)
    requires
        ctx.token_restriction is None,
    ensures
        ctx.authentication_context is Oidc ==> (scope_boundaries(ctx, scope) is Ok <==> (
        scope is Domain || scope is Project || scope is Unscoped)),
        ctx.authentication_context is K8s ==> (scope_boundaries(ctx, scope) is Ok <==> scope is Project),
        ctx.authentication_context is Spiffe || ctx.authentication_context is WebauthN ==> (
        scope_boundaries(ctx, scope) is Ok <==> !(scope is TrustProject)),
{
}

} // verus!
