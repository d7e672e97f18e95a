//! Validation of a security context for a scope.
//!
//! A [`ValidatedSecurityContext`] is only produced by running the scope
//! validation to its end: the scope must be reachable from the
//! authentication, the principal valid, nothing expired, a consumed trust
//! valid and its trustor enabled, and the effective roles resolved. The
//! validation queries providers on the way; it is written as a state
//! machine: [`ScopeStep::begin`] starts it, each `on_*` function takes the
//! answer to the query the current step asks for, and the caller runs the
//! queries until the step is [`ScopeStep::Done`].
use vstd::prelude::*;
use crate::auth::{
    SecurityContextView, AuthError, AuthenticationContext, AuthenticationError, AuthzInfo, IdentityInfo, ScopeInfo,
    SecurityContext, context_check, principal_user_id, resolution_check, same_scope,
    scope_boundaries, scope_check, unit_view,
};
use crate::credential::FernetToken;
use crate::identity::UserResponse;
use crate::resource::Domain;
use crate::role::RoleRef;
use crate::role_resolution::{RoleStep, start_step};

verus! {

/// A security context that passed the validation for its scope.
pub struct ValidatedSecurityContext(SecurityContext);

impl ValidatedSecurityContext {
    /// The validated context.
    pub closed spec fn context(&self) -> SecurityContext {
        self.0
    }

    /// The validated security context.
    pub fn inner(&self) -> (res: &SecurityContext)
        ensures
            *res == self.context(),
    {
        &self.0
    }

    /// Returns the token of the context; a context without one is an error.
    pub fn token(&self) -> (res: Result<&FernetToken, AuthenticationError>)
        ensures
            match self.context()@.token {
                Some(t) => res == Ok::<&FernetToken, AuthenticationError>(&t),
                None => res matches Err(e) && e@ == AuthError::TokenNotInContext,
            },
    {
        match self.0.token() {
            Some(t) => Ok(t),
            None => Err(AuthenticationError::TokenNotInContext),
        }
    }

    /// Wraps a context without validation; for tests and mocks only.
    pub fn test_new(ctx: SecurityContext) -> (res: Self)
        ensures
            res.context() == ctx,
    {
        ValidatedSecurityContext(ctx)
    }
}

/// A step of the scope validation.
pub enum ScopeStep {
    /// Fetch the domain `domain_id` of the user.
    NeedUserDomain { ctx: SecurityContext, domain_id: String },
    /// Validate the delegation chain of the trust the context consumes.
    NeedTrustChain { ctx: SecurityContext },
    /// Fetch the trustor of the trust the context consumes.
    NeedTrustor { ctx: SecurityContext },
    /// Fetch whether the trustor's domain `domain_id` is enabled.
    NeedTrustorDomainEnabled { ctx: SecurityContext, domain_id: String },
    /// Resolve the effective roles: run `roles` and hand its next step to
    /// [`ScopeStep::resume_roles`].
    Roles { ctx: SecurityContext, roles: RoleStep },
    /// Validation finished.
    Done(ValidatedSecurityContext),
}

/// The context after the scope check: a requested scope that differs from
/// the one already bound (or any scope, when none is bound) must pass the
/// boundaries check; the requested scope then replaces the bound one, with
/// its roles still to be resolved.
pub open spec fn scope_bound(ctx: SecurityContext, scope: ScopeInfo) -> Result<SecurityContextView, AuthError> {
    let check = match ctx@.authorization {
        Some(a) => if same_scope(a.scope, scope) {
            Ok(())
        } else {
            scope_boundaries(ctx@, scope)
        },
        None => scope_boundaries(ctx@, scope),
    };
    match check {
        Ok(()) => Ok(SecurityContextView { authorization: Some(AuthzInfo { roles: None, scope }), ..ctx@ }),
        Err(e) => Err(e),
    }
}

/// The scope a step validates for: that of the authorization bound to its
/// context.
pub open spec fn step_scope(step: ScopeStep) -> ScopeInfo {
    match step {
        ScopeStep::NeedUserDomain { ctx, .. } => ctx@.authorization->0.scope,
        ScopeStep::NeedTrustChain { ctx } => ctx@.authorization->0.scope,
        ScopeStep::NeedTrustor { ctx } => ctx@.authorization->0.scope,
        ScopeStep::NeedTrustorDomainEnabled { ctx, .. } => ctx@.authorization->0.scope,
        ScopeStep::Roles { ctx, .. } => ctx@.authorization->0.scope,
        ScopeStep::Done(v) => v.context()@.authorization->0.scope,
    }
}

/// What holds at every step of a validation: an authorization is bound;
/// past the user domain the context is valid (a trust step keeps its trust
/// context); at the end the context passes the final resolution check.
pub open spec fn step_valid(step: ScopeStep) -> bool {
    match step {
        ScopeStep::NeedUserDomain { ctx, .. } => ctx@.authorization is Some,
        ScopeStep::NeedTrustChain { ctx } => ctx@.authorization is Some && context_check(ctx@) is Ok
            && ctx@.authentication_context is Trust,
        ScopeStep::NeedTrustor { ctx } => ctx@.authorization is Some && context_check(ctx@) is Ok
            && ctx@.authentication_context is Trust,
        ScopeStep::NeedTrustorDomainEnabled { ctx, .. } => ctx@.authorization is Some
            && context_check(ctx@) is Ok,
        ScopeStep::Roles { ctx, .. } => ctx@.authorization is Some && context_check(ctx@) is Ok,
        ScopeStep::Done(v) => resolution_check(v.context()@) is Ok && v.context()@.authorization is Some,
    }
}

/// Whether a step result keeps the validation invariant for `scope`.
pub open spec fn keeps_valid(res: Result<ScopeStep, AuthenticationError>, scope: ScopeInfo) -> bool {
    res matches Ok(s) ==> step_valid(s) && step_scope(s) == scope
}

/// The domain to fetch for a user principal whose domain is not resolved.
pub open spec fn missing_user_domain(ctx: SecurityContext) -> Option<Seq<char>> {
    match ctx@.principal.identity {
        IdentityInfo::User(u) => if u.user_domain is None && u.user is Some {
            Some(u.user->0.domain_id@)
        } else {
            None
        },
        _ => None,
    }
}

/// The context after the resolved roles were set on its authorization.
pub open spec fn with_roles(ctx: SecurityContext, roles: Vec<RoleRef>) -> SecurityContextView {
    match ctx@.authorization {
        Some(a) => SecurityContextView {
            authorization: Some(AuthzInfo { roles: Some(roles), ..a }),
            ..ctx@
        },
        None => ctx@,
    }
}

/// The end of the validation with resolved roles: a scoped authorization
/// without roles is refused.
pub open spec fn finalized(ctx: SecurityContext, roles: Vec<RoleRef>, res: Result<ScopeStep, AuthenticationError>) -> bool {
    let c = with_roles(ctx, roles);
    if c.authorization is Some && !(c.authorization->0.scope is Unscoped) && roles@.len() == 0 {
        res matches Err(e) && e@ == AuthError::ActorHasNoRolesOnTarget
    } else {
        res matches Ok(ScopeStep::Done(v)) && v.context()@ == c
    }
}

/// What the validation makes of the next role resolution step.
pub open spec fn resumed(ctx: SecurityContext, next: Result<RoleStep, AuthenticationError>, res: Result<ScopeStep, AuthenticationError>) -> bool {
    match next {
        Err(e) => res matches Err(x) && x@ == e@,
        Ok(RoleStep::Done(roles)) => finalized(ctx, roles, res),
        Ok(step) => res matches Ok(ScopeStep::Roles { ctx: c, roles: s }) && c == ctx && s == step,
    }
}

/// The role phase: roles are resolved for the bound scope.
pub open spec fn role_phase(ctx: SecurityContext, res: Result<ScopeStep, AuthenticationError>) -> bool {
    match ctx@.authorization {
        None => res matches Ok(ScopeStep::Done(v)) && v.context() == ctx,
        Some(a) => match scope_check(a.scope) {
            Err(e) => res matches Err(x) && x@ == e,
            Ok(()) => exists|next: Result<RoleStep, AuthenticationError>|
                start_step(ctx, a.scope, next) && resumed(ctx, next, res),
        },
    }
}

/// The checks once the user domain is known: the context is valid and not
/// expired at `now`; an application credential is bound to the principal and
/// not expired; a trust goes on to its delegation chain check.
pub open spec fn after_domain(ctx: SecurityContext, now: i64, res: Result<ScopeStep, AuthenticationError>) -> bool {
    match context_check(ctx@) {
        Err(e) => res matches Err(x) && x@ == e,
        Ok(()) => if ctx@.expires_at is Some && ctx@.expires_at->0 < now {
            res matches Err(x) && x@ == AuthError::AuthTokenExpired
        } else {
            match ctx@.authentication_context {
                AuthenticationContext::ApplicationCredential { application_credential, .. } => {
                    if application_credential.user_id@ != principal_user_id(ctx@.principal) {
                        res matches Err(x) && x@ == AuthError::AuthzPrincipalMismatch
                    } else if application_credential.expires_at is Some
                        && application_credential.expires_at->0 < now {
                        res matches Err(x) && x@ == AuthError::AuthApplicationCredentialExpired
                    } else {
                        role_phase(ctx, res)
                    }
                },
                AuthenticationContext::Trust { .. } => res matches Ok(ScopeStep::NeedTrustChain { ctx: c })
                    && c == ctx,
                _ => role_phase(ctx, res),
            }
        },
    }
}

/// The step after the domain check of a context.
pub open spec fn after_bound(ctx: SecurityContext, now: i64, res: Result<ScopeStep, AuthenticationError>) -> bool {
    match missing_user_domain(ctx) {
        Some(d) => res matches Ok(ScopeStep::NeedUserDomain { ctx: c, domain_id }) && c == ctx
            && domain_id@ == d,
        None => after_domain(ctx, now, res),
    }
}

/// Enters the role phase.
fn enter_role_phase(ctx: SecurityContext) -> (res: Result<ScopeStep, AuthenticationError>)
    ensures
        role_phase(ctx, res),
        ctx@.authorization is Some && context_check(ctx@) is Ok ==> keeps_valid(
            res,
            ctx@.authorization->0.scope,
        ),
{
    let next = match ctx.authorization() {
        Some(authz) => RoleStep::start(&ctx, &authz.scope),
        None => {
            return Ok(ScopeStep::Done(ValidatedSecurityContext(ctx)));
        },
    };
    let ghost n = next;
    let ghost c = ctx;
    let res = ScopeStep::resume_roles(ctx, next);
    assert(start_step(c, c@.authorization->0.scope, n) ==> resumed(c, n, res));
    proof {
        if context_check(c@) is Ok {
            lemma_role_phase_valid(c, res);
        }
    }
    res
}

/// Checks a context whose user domain is known.
fn check_after_domain(ctx: SecurityContext, now: i64) -> (res: Result<ScopeStep, AuthenticationError>)
    ensures
        after_domain(ctx, now, res),
        ctx@.authorization is Some ==> keeps_valid(res, ctx@.authorization->0.scope),
{
    match ctx.validate() {
        Err(e) => {
            return Err(e);
        },
        Ok(()) => {},
    }
    if let Some(expiry) = ctx.expires_at() {
        if expiry < now {
            return Err(AuthenticationError::AuthTokenExpired);
        }
    }
    let mut go_trust = false;
    match ctx.authentication_context() {
        AuthenticationContext::ApplicationCredential { application_credential, .. } => {
            if !(application_credential.user_id == ctx.principal().get_user_id()) {
                return Err(AuthenticationError::AuthzPrincipalMismatch);
            }
            if let Some(expiry) = application_credential.expires_at {
                if expiry < now {
                    return Err(AuthenticationError::AuthApplicationCredentialExpired);
                }
            }
        },
        AuthenticationContext::Trust { .. } => {
            go_trust = true;
        },
        _ => {},
    }
    if go_trust {
        Ok(ScopeStep::NeedTrustChain { ctx })
    } else {
        enter_role_phase(ctx)
    }
}

/// Goes on once the scope is bound.
fn continue_bound(ctx: SecurityContext, now: i64) -> (res: Result<ScopeStep, AuthenticationError>)
    ensures
        after_bound(ctx, now, res),
        ctx@.authorization is Some ==> keeps_valid(res, ctx@.authorization->0.scope),
{
    let mut domain_id: Option<String> = None;
    if let IdentityInfo::User(user_info) = &ctx.principal().identity {
        if user_info.user_domain.is_none() {
            if let Some(user) = &user_info.user {
                domain_id = Some(user.domain_id.clone());
            }
        }
    }
    match domain_id {
        Some(d) => Ok(ScopeStep::NeedUserDomain { ctx, domain_id: d }),
        None => check_after_domain(ctx, now),
    }
}

/// What [`ScopeStep::begin`] gives for `ctx`, `scope` and `now`.
pub open spec fn begun(ctx: SecurityContext, scope: ScopeInfo, now: i64, res: Result<ScopeStep, AuthenticationError>) -> bool {
    match scope_bound(ctx, scope) {
        Err(e) => res matches Err(x) && x@ == e,
        Ok(cv) => exists|c: SecurityContext| c@ == cv && after_bound(c, now, res),
    }
}

/// What [`ScopeStep::on_user_domain`] gives.
pub open spec fn user_domain_answered(self_: ScopeStep, answer: Result<Option<Domain>, String>, now: i64, res: Result<ScopeStep, AuthenticationError>) -> bool {
    match self_ {
        ScopeStep::NeedUserDomain { ctx, domain_id } => match answer {
            Err(m) => res matches Err(e) && e@ == AuthError::Provider {
                message: m@,
                context: Some("fetching user domain"@),
            },
            Ok(None) => res matches Err(e) && e@ == AuthError::Provider {
                message: domain_id@,
                context: Some("fetching user domain"@),
            },
            Ok(Some(d)) => exists|c: SecurityContext|
                crate::validated::populated(ctx, d, c) && after_domain(c, now, res),
        },
        _ => true,
    }
}

/// What [`ScopeStep::on_trust_chain`] gives.
pub open spec fn trust_chain_answered(self_: ScopeStep, answer: Result<(), String>, res: Result<ScopeStep, AuthenticationError>) -> bool {
    match self_ {
        ScopeStep::NeedTrustChain { ctx } => match answer {
            Err(m) => res matches Err(e) && e@ == AuthError::Provider {
                message: m@,
                context: Some("validating trust delegation chain"@),
            },
            Ok(()) => if ctx@.authentication_context->trust.trustee_user_id@ != principal_user_id(ctx@.principal) {
                res matches Err(e) && e@ == AuthError::AuthzPrincipalMismatch
            } else {
                res matches Ok(ScopeStep::NeedTrustor { ctx: c }) && c == ctx
            },
        },
        _ => true,
    }
}

/// What [`ScopeStep::on_trustor`] gives.
pub open spec fn trustor_answered(self_: ScopeStep, answer: Result<Option<UserResponse>, String>, res: Result<ScopeStep, AuthenticationError>) -> bool {
    match self_ {
        ScopeStep::NeedTrustor { ctx } => {
            let trustor_id = ctx@.authentication_context->trust.trustor_user_id@;
            match answer {
                Err(m) => res matches Err(e) && e@ == AuthError::Provider {
                    message: m@,
                    context: Some("fetching trustor user"@),
                },
                Ok(None) => res matches Err(e) && e@ == AuthError::Provider {
                    message: trustor_id,
                    context: Some("fetching trustor user"@),
                },
                Ok(Some(t)) => if !t.enabled {
                    res matches Err(e) && e@ == AuthError::TrustorUserDisabled(trustor_id)
                } else {
                    match ctx@.principal.identity {
                        IdentityInfo::User(u) => if u.user is Some && u.user->0.domain_id@
                            != t.domain_id@ {
                            res matches Ok(ScopeStep::NeedTrustorDomainEnabled { ctx: c, domain_id })
                                && c == ctx && domain_id@ == t.domain_id@
                        } else {
                            role_phase(ctx, res)
                        },
                        _ => res matches Err(e) && e@ == AuthError::TrustorPrincipalUseNotSupported,
                    }
                },
            }
        },
        _ => true,
    }
}

/// What [`ScopeStep::on_trustor_domain_enabled`] gives.
pub open spec fn trustor_domain_answered(self_: ScopeStep, answer: Result<bool, String>, res: Result<ScopeStep, AuthenticationError>) -> bool {
    match self_ {
        ScopeStep::NeedTrustorDomainEnabled { ctx, .. } => match answer {
            Err(m) => res matches Err(e) && e@ == AuthError::Provider {
                message: m@,
                context: Some("get_trustor_domain_enabled"@),
            },
            Ok(false) => res matches Err(e) && e@ == AuthError::TrustorDomainDisabled,
            Ok(true) => role_phase(ctx, res),
        },
        _ => true,
    }
}

impl ScopeStep {
    /// Starts validating `ctx` for `scope` at time `now` (seconds since the
    /// epoch). A scope that differs from the one already bound (or any
    /// scope, when none is bound) must pass the boundaries check; the
    /// requested scope then replaces the bound one, and the roles are
    /// resolved for it.
    pub fn begin(ctx: SecurityContext, scope: ScopeInfo, now: i64) -> (res: Result<ScopeStep, AuthenticationError>)
        ensures
            begun(ctx, scope, now, res),
            keeps_valid(res, scope),
    {
        let mut ctx = ctx;
        let same = match ctx.authorization() {
            Some(existing) => existing.scope == scope,
            None => false,
        };
        if !same {
            match ctx.validate_scope_boundaries(&scope) {
                Err(e) => {
                    return Err(e);
                },
                Ok(()) => {},
            }
        }
        ctx.set_authorization(AuthzInfo { roles: None, scope });
        continue_bound(ctx, now)
    }

    /// Continues a `NeedUserDomain` step with the fetched domain: a failed
    /// fetch or a missing domain is a provider error.
    pub fn on_user_domain(self, answer: Result<Option<Domain>, String>, now: i64) -> (res: Result<ScopeStep, AuthenticationError>)
        requires
            self is NeedUserDomain,
        ensures
            step_valid(self) ==> keeps_valid(res, step_scope(self)),
            user_domain_answered(self, answer, now, res),
    {
        match self {
            ScopeStep::NeedUserDomain { ctx, domain_id } => {
                let domain = match answer {
                    Err(m) => {
                        return Err(
                            AuthenticationError::Provider {
                                message: m,
                                context: Some(String::from_str("fetching user domain")),
                            },
                        );
                    },
                    Ok(None) => {
                        return Err(
                            AuthenticationError::Provider {
                                message: domain_id,
                                context: Some(String::from_str("fetching user domain")),
                            },
                        );
                    },
                    Ok(Some(d)) => d,
                };
                let mut ctx = ctx;
                let ghost before = ctx;
                ctx.populate_user_domain(domain);
                let ghost after = ctx;
                assert(populated(before, domain, after));
                check_after_domain(ctx, now)
            },
            _ => Err(AuthenticationError::Unauthorized),
        }
    }

    /// Continues a `NeedTrustChain` step with the outcome of the delegation
    /// chain check; the trustee must be the principal.
    pub fn on_trust_chain(self, answer: Result<(), String>) -> (res: Result<ScopeStep, AuthenticationError>)
        requires
            self matches ScopeStep::NeedTrustChain { ctx } && ctx@.authentication_context is Trust,
        ensures
            step_valid(self) ==> keeps_valid(res, step_scope(self)),
            trust_chain_answered(self, answer, res),
    {
        match self {
            ScopeStep::NeedTrustChain { ctx } => {
                if let Err(m) = answer {
                    return Err(
                        AuthenticationError::Provider {
                            message: m,
                            context: Some(String::from_str("validating trust delegation chain")),
                        },
                    );
                }
                let mismatch = match ctx.authentication_context() {
                    AuthenticationContext::Trust { trust, .. } => !(trust.trustee_user_id
                        == ctx.principal().get_user_id()),
                    _ => true,
                };
                if mismatch {
                    return Err(AuthenticationError::AuthzPrincipalMismatch);
                }
                Ok(ScopeStep::NeedTrustor { ctx })
            },
            _ => Err(AuthenticationError::Unauthorized),
        }
    }

    /// Continues a `NeedTrustor` step with the fetched trustor: it must
    /// exist and be enabled, and trusts are only consumed by regular users;
    /// when the trustor lives in another domain than the user, that domain
    /// must be enabled.
    pub fn on_trustor(self, answer: Result<Option<UserResponse>, String>) -> (res: Result<ScopeStep, AuthenticationError>)
        requires
            self matches ScopeStep::NeedTrustor { ctx } && ctx@.authentication_context is Trust,
        ensures
            step_valid(self) ==> keeps_valid(res, step_scope(self)),
            trustor_answered(self, answer, res),
    {
        match self {
            ScopeStep::NeedTrustor { ctx } => {
                let trustor_id = match ctx.authentication_context() {
                    AuthenticationContext::Trust { trust, .. } => trust.trustor_user_id.clone(),
                    _ => String::new(),
                };
                let trustor = match answer {
                    Err(m) => {
                        return Err(
                            AuthenticationError::Provider {
                                message: m,
                                context: Some(String::from_str("fetching trustor user")),
                            },
                        );
                    },
                    Ok(None) => {
                        return Err(
                            AuthenticationError::Provider {
                                message: trustor_id,
                                context: Some(String::from_str("fetching trustor user")),
                            },
                        );
                    },
                    Ok(Some(t)) => t,
                };
                if !trustor.enabled {
                    return Err(AuthenticationError::TrustorUserDisabled(trustor_id));
                }
                let mut other_domain = false;
                match &ctx.principal().identity {
                    IdentityInfo::User(user) => {
                        if let Some(u) = &user.user {
                            if !(u.domain_id == trustor.domain_id) {
                                other_domain = true;
                            }
                        }
                    },
                    _ => {
                        return Err(AuthenticationError::TrustorPrincipalUseNotSupported);
                    },
                }
                if other_domain {
                    Ok(ScopeStep::NeedTrustorDomainEnabled { ctx, domain_id: trustor.domain_id })
                } else {
                    enter_role_phase(ctx)
                }
            },
            _ => Err(AuthenticationError::Unauthorized),
        }
    }

    /// Continues a `NeedTrustorDomainEnabled` step with whether the domain
    /// is enabled.
    pub fn on_trustor_domain_enabled(self, answer: Result<bool, String>) -> (res: Result<ScopeStep, AuthenticationError>)
        requires
            self is NeedTrustorDomainEnabled,
        ensures
            step_valid(self) ==> keeps_valid(res, step_scope(self)),
            trustor_domain_answered(self, answer, res),
    {
        match self {
            ScopeStep::NeedTrustorDomainEnabled { ctx, .. } => match answer {
                Err(m) => Err(
                    AuthenticationError::Provider {
                        message: m,
                        context: Some(String::from_str("get_trustor_domain_enabled")),
                    },
                ),
                Ok(false) => Err(AuthenticationError::TrustorDomainDisabled),
                Ok(true) => enter_role_phase(ctx),
            },
            _ => Err(AuthenticationError::Unauthorized),
        }
    }

    /// Continues the role phase with the next role resolution step.
    pub fn resume_roles(ctx: SecurityContext, next: Result<RoleStep, AuthenticationError>) -> (res: Result<ScopeStep, AuthenticationError>)
        ensures
            resumed(ctx, next, res),
            ctx@.authorization is Some && context_check(ctx@) is Ok ==> keeps_valid(
                res,
                ctx@.authorization->0.scope,
            ),
    {
        match next {
            Err(e) => Err(e),
            Ok(RoleStep::Done(roles)) => {
                let mut ctx = ctx;
                let empty = roles.len() == 0;
                ctx.set_effective_roles(roles);
                let refuse = match ctx.authorization() {
                    Some(authz) => match authz.scope {
                        ScopeInfo::Unscoped => false,
                        _ => empty,
                    },
                    None => false,
                };
                if refuse {
                    Err(AuthenticationError::ActorHasNoRolesOnTarget)
                } else {
                    Ok(ScopeStep::Done(ValidatedSecurityContext(ctx)))
                }
            },
            Ok(step) => Ok(ScopeStep::Roles { ctx, roles: step }),
        }
    }
}

/// Whether `after` is `before` with the user domain populated by `domain`.
pub open spec fn populated(before: SecurityContext, domain: Domain, after: SecurityContext) -> bool {
    match before@.principal.identity {
        IdentityInfo::User(u) => if u.user_domain is None {
            after@ == (SecurityContextView {
                principal: crate::auth::PrincipalInfo {
                    identity: IdentityInfo::User(
                        crate::auth::UserIdentityInfo { user_domain: Some(domain), ..u },
                    ),
                },
                ..before@
            })
        } else {
            after@ == before@
        },
        _ => after@ == before@,
    }
}

/// The end of the role phase keeps the validation invariant.
proof fn lemma_resumed_valid(
    ctx: SecurityContext,
    next: Result<RoleStep, AuthenticationError>,
    res: Result<ScopeStep, AuthenticationError>,
)
    requires
        resumed(ctx, next, res),
        ctx@.authorization is Some,
        context_check(ctx@) is Ok,
    ensures
        keeps_valid(res, ctx@.authorization->0.scope),
{
    match next {
        Ok(RoleStep::Done(roles)) => {
            assert(context_check(with_roles(ctx, roles)) == context_check(ctx@));
        },
        _ => {},
    }
}

/// The role phase keeps the validation invariant.
proof fn lemma_role_phase_valid(ctx: SecurityContext, res: Result<ScopeStep, AuthenticationError>)
    requires
        role_phase(ctx, res),
        ctx@.authorization is Some,
        context_check(ctx@) is Ok,
    ensures
        keeps_valid(res, ctx@.authorization->0.scope),
{
    let a = ctx@.authorization->0;
    if scope_check(a.scope) is Ok {
        let next = choose|next: Result<RoleStep, AuthenticationError>|
            start_step(ctx, a.scope, next) && resumed(ctx, next, res);
        lemma_resumed_valid(ctx, next, res);
    }
}

/// A validation that ends with resolved roles on a bound authorization
/// yields a context that passes the final resolution check (a valid context,
/// unscoped or scoped with at least one role), bound to the same scope.
pub proof fn lemma_validated_is_resolved(
    ctx: SecurityContext,
    roles: Vec<RoleRef>,
    res: Result<ScopeStep, AuthenticationError>,
)
    requires
        ctx@.authorization is Some,
        context_check(ctx@) is Ok,
        finalized(ctx, roles, res),
    ensures
        res matches Ok(ScopeStep::Done(v)) ==> (v.context()@.authorization matches Some(a)
            && crate::auth::authorization_resolved(a) && a.scope == ctx@.authorization->0.scope
            && resolution_check(v.context()@) is Ok),
{
    assert(context_check(with_roles(ctx, roles)) == context_check(ctx@));
}

/// Whether `res` is what the step `s` can go on to, for some answer to the
/// query it asks (and some time): the `on_*` step for its kind, or for the
/// role phase [`ScopeStep::resume_roles`] with some next role step. A
/// finished validation goes on to nothing.
pub open spec fn advances(s: ScopeStep, res: Result<ScopeStep, AuthenticationError>) -> bool {
    match s {
        ScopeStep::NeedUserDomain { .. } => exists|a: Result<Option<Domain>, String>, now: i64|
            user_domain_answered(s, a, now, res),
        ScopeStep::NeedTrustChain { ctx } => ctx@.authentication_context is Trust && exists|
            a: Result<(), String>,
        | trust_chain_answered(s, a, res),
        ScopeStep::NeedTrustor { ctx } => ctx@.authentication_context is Trust && exists|
            a: Result<Option<UserResponse>, String>,
        | trustor_answered(s, a, res),
        ScopeStep::NeedTrustorDomainEnabled { .. } => exists|a: Result<bool, String>|
            trustor_domain_answered(s, a, res),
        ScopeStep::Roles { ctx, .. } => exists|next: Result<RoleStep, AuthenticationError>|
            resumed(ctx, next, res),
        ScopeStep::Done(_) => false,
    }
}

/// The checks once the user domain is known keep the validation invariant.
proof fn lemma_after_domain_valid(ctx: SecurityContext, now: i64, res: Result<ScopeStep, AuthenticationError>)
    requires
        after_domain(ctx, now, res),
        ctx@.authorization is Some,
    ensures
        keeps_valid(res, ctx@.authorization->0.scope),
{
    if context_check(ctx@) is Ok && role_phase(ctx, res) {
        lemma_role_phase_valid(ctx, res);
    }
}

/// The step after the scope is bound keeps the validation invariant.
proof fn lemma_after_bound_valid(ctx: SecurityContext, now: i64, res: Result<ScopeStep, AuthenticationError>)
    requires
        after_bound(ctx, now, res),
        ctx@.authorization is Some,
    ensures
        keeps_valid(res, ctx@.authorization->0.scope),
{
    if missing_user_domain(ctx) is None {
        lemma_after_domain_valid(ctx, now, res);
    }
}

/// Starting a validation establishes the invariant for the requested scope.
proof fn lemma_begun_valid(ctx: SecurityContext, scope: ScopeInfo, now: i64, res: Result<ScopeStep, AuthenticationError>)
    requires
        begun(ctx, scope, now, res),
    ensures
        keeps_valid(res, scope),
{
    if let Ok(cv) = scope_bound(ctx, scope) {
        let c = choose|c: SecurityContext| c@ == cv && after_bound(c, now, res);
        lemma_after_bound_valid(c, now, res);
    }
}

/// Going on from a step keeps the validation invariant and its scope.
proof fn lemma_advances_valid(s: ScopeStep, res: Result<ScopeStep, AuthenticationError>)
    requires
        step_valid(s),
        advances(s, res),
    ensures
        keeps_valid(res, step_scope(s)),
{
    match s {
        ScopeStep::NeedUserDomain { ctx, .. } => {
            let (a, now) = choose|a: Result<Option<Domain>, String>, now: i64|
                user_domain_answered(s, a, now, res);
            if let Ok(Some(d)) = a {
                let c = choose|c: SecurityContext| populated(ctx, d, c) && after_domain(c, now, res);
                lemma_after_domain_valid(c, now, res);
            }
        },
        ScopeStep::NeedTrustChain { .. } => {},
        ScopeStep::NeedTrustor { ctx } => {
            let a = choose|a: Result<Option<UserResponse>, String>| trustor_answered(s, a, res);
            if role_phase(ctx, res) {
                lemma_role_phase_valid(ctx, res);
            }
        },
        ScopeStep::NeedTrustorDomainEnabled { ctx, .. } => {
            let a = choose|a: Result<bool, String>| trustor_domain_answered(s, a, res);
            if role_phase(ctx, res) {
                lemma_role_phase_valid(ctx, res);
            }
        },
        ScopeStep::Roles { ctx, .. } => {
            let next = choose|next: Result<RoleStep, AuthenticationError>| resumed(ctx, next, res);
            lemma_resumed_valid(ctx, next, res);
        },
        ScopeStep::Done(_) => {},
    }
}

/// A whole validation run: started by [`ScopeStep::begin`] for `scope`,
/// each step going on to the next one for whatever the providers answered,
/// and ending in [`ScopeStep::Done`]. Its context passes the final
/// resolution check (what `fully_resolved` computes) and is bound to the
/// requested scope.
pub proof fn lemma_validation_run_resolved(
    ctx: SecurityContext,
    scope: ScopeInfo,
    now: i64,
    steps: Seq<ScopeStep>,
    v: ValidatedSecurityContext,
)
    requires
        steps.len() > 0,
        begun(ctx, scope, now, Ok(steps[0])),
        forall|i: int| 0 <= i < steps.len() - 1 ==> advances(#[trigger] steps[i], Ok(steps[i + 1])),
        steps.last() == ScopeStep::Done(v),
    ensures
        resolution_check(v.context()@) is Ok,
        v.context()@.authorization matches Some(a) && a.scope == scope,
{
    lemma_begun_valid(ctx, scope, now, Ok(steps[0]));
    lemma_run_from(steps, scope, 0);
}

/// From a valid step of a run for `scope` on, every step is valid for it.
proof fn lemma_run_from(steps: Seq<ScopeStep>, scope: ScopeInfo, i: int)
    requires
        0 <= i < steps.len(),
        step_valid(steps[i]),
        step_scope(steps[i]) == scope,
        forall|j: int| 0 <= j < steps.len() - 1 ==> advances(#[trigger] steps[j], Ok(steps[j + 1])),
    ensures
        step_valid(steps.last()),
        step_scope(steps.last()) == scope,
    decreases steps.len() - i,
{
    if i < steps.len() - 1 {
        lemma_advances_valid(steps[i], Ok(steps[i + 1]));
        lemma_run_from(steps, scope, i + 1);
    }
}

} // verus!
