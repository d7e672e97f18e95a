use keystone_verified::assignment::{Assignment, AssignmentType, RoleAssignmentListParameters};
use keystone_verified::auth::{
    AuthenticationContext, AuthenticationError, AuthzInfo, IdentityInfo, PrincipalIdentityInfo,
    PrincipalInfo, ScopeInfo, SecurityContext, TrustProjectInfo, UserIdentityInfo,
};
use keystone_verified::credential::{ApplicationCredential, TokenRestriction, Trust};
use keystone_verified::identity::{UserOptions, UserResponse};
use keystone_verified::resource::{Domain, Project};
use keystone_verified::role::{Role, RoleRef};
use keystone_verified::role_resolution::RoleStep;
use keystone_verified::spiffe::{SpiffeAuthorization, SpiffeBinding};
use keystone_verified::validated::{ScopeStep, ValidatedSecurityContext};

/// How the fake role provider expands implied roles.
enum Expansion {
    /// Hands the roles back unchanged.
    Unchanged,
    /// Appends one more role.
    Push(RoleRef),
    /// Names the role with the given ID.
    Name(String, String),
    /// Fails.
    Fail,
}

/// Answers of the fake providers, with the queries recorded.
struct Fake {
    assignments: Result<Vec<Assignment>, String>,
    roles: Result<Vec<Role>, String>,
    expansion: Expansion,
    queries: Vec<RoleAssignmentListParameters>,
    expanded: Vec<Vec<RoleRef>>,
    role_queries: Vec<Option<String>>,
}

impl Fake {
    fn with(assignments: Vec<Assignment>) -> Self {
        Fake {
            assignments: Ok(assignments),
            roles: Ok(vec![]),
            expansion: Expansion::Unchanged,
            queries: vec![],
            expanded: vec![],
            role_queries: vec![],
        }
    }

    fn calls(&self) -> usize {
        self.queries.len() + self.expanded.len() + self.role_queries.len()
    }
}

fn copy_roles(roles: &[RoleRef]) -> Vec<RoleRef> {
    roles
        .iter()
        .map(|r| RoleRef {
            id: r.id.clone(),
            name: r.name.clone(),
            domain_id: r.domain_id.clone(),
        })
        .collect()
}

fn copy_params(p: &RoleAssignmentListParameters) -> RoleAssignmentListParameters {
    RoleAssignmentListParameters {
        role_id: p.role_id.clone(),
        user_id: p.user_id.clone(),
        group_id: p.group_id.clone(),
        domain_id: p.domain_id.clone(),
        project_id: p.project_id.clone(),
        system_id: p.system_id.clone(),
        effective: p.effective,
        include_names: p.include_names,
        resolve_implied_roles: p.resolve_implied_roles,
    }
}

fn advance(fake: &mut Fake, step: RoleStep) -> Result<RoleStep, AuthenticationError> {
    match step {
        RoleStep::Done(r) => Ok(RoleStep::Done(r)),
        s @ RoleStep::ListAssignments { .. } => {
            if let RoleStep::ListAssignments { params, .. } = &s {
                fake.queries.push(copy_params(params));
            }
            let answer = match &fake.assignments {
                Ok(v) => Ok(v.iter().map(|a| a.clone()).collect()),
                Err(e) => Err(e.clone()),
            };
            s.on_assignments(answer)
        }
        s @ RoleStep::ExpandImplied { .. } => {
            let answer = match &s {
                RoleStep::ExpandImplied { roles, .. } => {
                    fake.expanded.push(copy_roles(roles));
                    let mut out = copy_roles(roles);
                    match &fake.expansion {
                        Expansion::Unchanged => Ok(out),
                        Expansion::Push(r) => {
                            out.push(copy_roles(std::slice::from_ref(r)).remove(0));
                            Ok(out)
                        }
                        Expansion::Name(id, name) => {
                            for r in out.iter_mut() {
                                if &r.id == id {
                                    r.name = Some(name.clone());
                                }
                            }
                            Ok(out)
                        }
                        Expansion::Fail => Err("db down".to_string()),
                    }
                }
                _ => Err(String::new()),
            };
            s.on_expanded(answer)
        }
        s @ RoleStep::ListRoles { .. } => {
            if let RoleStep::ListRoles { params, .. } = &s {
                fake.role_queries.push(params.name.clone());
            }
            let answer = match &fake.roles {
                Ok(v) => Ok(v.iter().map(|r| r.clone()).collect()),
                Err(e) => Err(e.clone()),
            };
            s.on_roles(answer)
        }
    }
}

fn calculate_effective_roles(
    fake: &mut Fake,
    ctx: &SecurityContext,
    scope: &ScopeInfo,
) -> Result<Vec<RoleRef>, AuthenticationError> {
    let mut step = RoleStep::start(ctx, scope)?;
    loop {
        step = match step {
            RoleStep::Done(r) => return Ok(r),
            other => advance(fake, other)?,
        };
    }
}

fn new_for_scope(
    fake: &mut Fake,
    ctx: SecurityContext,
    scope: ScopeInfo,
) -> Result<ValidatedSecurityContext, AuthenticationError> {
    let mut step = ScopeStep::begin(ctx, scope, 0)?;
    loop {
        step = match step {
            ScopeStep::Done(v) => return Ok(v),
            ScopeStep::Roles { ctx, roles } => {
                let next = advance(fake, roles);
                ScopeStep::resume_roles(ctx, next)?
            }
            _ => panic!("no other query expected"),
        };
    }
}

fn default_domain() -> Domain {
    Domain {
        id: "d1".to_string(),
        description: None,
        enabled: true,
        name: "default".to_string(),
    }
}

fn make_user_identity(uid: &str) -> PrincipalInfo {
    PrincipalInfo {
        identity: IdentityInfo::User(UserIdentityInfo {
            user_id: uid.into(),
            user: Some(UserResponse {
                id: uid.into(),
                domain_id: "d1".to_string(),
                enabled: true,
                name: "u".to_string(),
                default_project_id: None,
                federated: None,
                options: UserOptions::empty(),
                password_expires_at: None,
            }),
            user_domain: Some(default_domain()),
            user_groups: Vec::new(),
        }),
    }
}

fn make_project(pid: &str) -> Project {
    Project {
        id: pid.into(),
        domain_id: "d1".to_string(),
        enabled: true,
        name: "p".to_string(),
        description: None,
        is_domain: false,
        parent_id: None,
    }
}

fn make_project_scope(pid: &str) -> ScopeInfo {
    ScopeInfo::Project {
        project: make_project(pid),
        project_domain: default_domain(),
    }
}

fn make_domain_scope(did: &str) -> ScopeInfo {
    let mut d = default_domain();
    d.id = did.into();
    ScopeInfo::Domain(d)
}

fn make_trust_scope(trustor: &str, trustee: &str, project: &str, roles: Option<Vec<RoleRef>>) -> ScopeInfo {
    ScopeInfo::TrustProject(Box::new(TrustProjectInfo {
        trust: Trust {
            id: "t1".to_string(),
            trustor_user_id: trustor.into(),
            trustee_user_id: trustee.into(),
            impersonation: false,
            project_id: None,
            expires_at: None,
            deleted_at: None,
            remaining_uses: None,
            redelegated_trust_id: None,
            redelegation_count: None,
            roles,
        },
        project: make_project(project),
        project_domain: default_domain(),
    }))
}

fn assignment_with_role(rid: &str) -> Assignment {
    Assignment {
        actor_id: "uid".into(),
        role_id: rid.into(),
        role_name: Some("admin".to_string()),
        target_id: "target".to_string(),
        assignment_type: AssignmentType::UserProject,
        inherited: false,
        implied_via: None,
    }
}

fn role_ref(id: &str, name: &str) -> RoleRef {
    RoleRef {
        id: id.into(),
        name: Some(name.into()),
        domain_id: None,
    }
}

fn context(auth: AuthenticationContext, principal: PrincipalInfo) -> SecurityContext {
    SecurityContext::test_build()
        .authentication_context(auth)
        .principal(principal)
        .build()
}

fn make_spiffe_binding(svid: &str, is_system: bool, authorizations: Option<Vec<SpiffeAuthorization>>) -> SpiffeBinding {
    SpiffeBinding {
        authorizations,
        domain_id: "d1".to_string(),
        svid: svid.into(),
        is_system,
        user_id: None,
    }
}

fn make_spiffe_principal(svid: &str, issuer: &str) -> PrincipalInfo {
    PrincipalInfo {
        identity: IdentityInfo::Principal(PrincipalIdentityInfo {
            id: svid.into(),
            issuer: issuer.into(),
            attributes: vec![],
            domain: Some(default_domain()),
        }),
    }
}

#[test]
fn test_unscoped_returns_empty() {
    let ctx = context(AuthenticationContext::Password, make_user_identity("uid"));
    let roles = calculate_effective_roles(&mut Fake::with(vec![]), &ctx, &ScopeInfo::Unscoped);
    assert!(roles.unwrap().is_empty());
}

#[test]
fn test_project_scope_returns_assignment_roles() {
    let mut fake = Fake::with(vec![assignment_with_role("rid1")]);
    let ctx = context(AuthenticationContext::Password, make_user_identity("uid"));
    let roles = calculate_effective_roles(&mut fake, &ctx, &make_project_scope("pid")).unwrap();
    assert_eq!(roles.len(), 1);
    assert_eq!(roles[0].id, "rid1");
    let q = &fake.queries[0];
    assert_eq!(q.user_id.as_deref(), Some("uid"));
    assert_eq!(q.project_id.as_deref(), Some("pid"));
    assert_eq!(q.effective, Some(true));
    assert_eq!(q.include_names, Some(true));
    assert!(q.domain_id.is_none() && q.system_id.is_none());
}

#[test]
fn test_domain_scope_returns_assignment_roles() {
    let mut fake = Fake::with(vec![assignment_with_role("rid1")]);
    let ctx = context(AuthenticationContext::Password, make_user_identity("uid"));
    let roles = calculate_effective_roles(&mut fake, &ctx, &make_domain_scope("did")).unwrap();
    assert_eq!(roles.len(), 1);
    assert_eq!(roles[0].id, "rid1");
    let q = &fake.queries[0];
    assert_eq!(q.domain_id.as_deref(), Some("did"));
    assert!(q.project_id.is_none() && q.system_id.is_none());
}

#[test]
fn test_system_scope_returns_assignment_roles() {
    let mut fake = Fake::with(vec![assignment_with_role("rid1")]);
    let ctx = context(AuthenticationContext::Password, make_user_identity("uid"));
    let roles = calculate_effective_roles(&mut fake, &ctx, &ScopeInfo::System("all".into())).unwrap();
    assert_eq!(roles.len(), 1);
    assert_eq!(roles[0].id, "rid1");
    assert_eq!(fake.queries[0].system_id.as_deref(), Some("all"));
}

#[test]
fn test_trust_scope_with_roles() {
    let mut fake = Fake::with(vec![assignment_with_role("rid1")]);
    let ctx = context(AuthenticationContext::Password, make_user_identity("trustor"));
    let scope = make_trust_scope("trustor", "trustee", "pid", Some(vec![role_ref("rid1", "admin")]));
    let roles = calculate_effective_roles(&mut fake, &ctx, &scope).unwrap();
    assert_eq!(roles.len(), 1);
    assert_eq!(roles[0].id, "rid1");
    assert_eq!(fake.queries[0].user_id.as_deref(), Some("trustor"));
    assert_eq!(fake.queries[0].project_id.as_deref(), Some("pid"));
}

#[test]
fn test_trust_scope_without_roles() {
    let mut fake = Fake::with(vec![assignment_with_role("rid1")]);
    let ctx = context(AuthenticationContext::Password, make_user_identity("trustor"));
    let scope = make_trust_scope("trustor", "trustee", "pid", None);
    let roles = calculate_effective_roles(&mut fake, &ctx, &scope).unwrap();
    assert_eq!(roles.len(), 1);
    assert_eq!(roles[0].id, "rid1");
}

#[test]
fn test_trust_scope_missing_role_error() {
    let mut fake = Fake::with(vec![assignment_with_role("other_role")]);
    let ctx = context(AuthenticationContext::Password, make_user_identity("trustor"));
    let scope = make_trust_scope("trustor", "trustee", "pid", Some(vec![role_ref("trust_role", "trustadmin")]));
    assert!(matches!(
        calculate_effective_roles(&mut fake, &ctx, &scope),
        Err(AuthenticationError::ActorHasNoRolesOnTarget)
    ));
}

#[test]
fn test_trust_scope_filters_domain_roles() {
    let mut fake = Fake::with(vec![assignment_with_role("rid1"), assignment_with_role("rid2")]);
    let ctx = context(AuthenticationContext::Password, make_user_identity("trustor"));
    let mut domain_role = role_ref("rid2", "domain_admin");
    domain_role.domain_id = Some("d1".into());
    let scope = make_trust_scope("trustor", "trustee", "pid", Some(vec![role_ref("rid1", "admin"), domain_role]));
    let roles = calculate_effective_roles(&mut fake, &ctx, &scope).unwrap();
    assert_eq!(roles.len(), 1);
    assert_eq!(roles[0].id, "rid1");
}

#[test]
fn test_project_scope_with_token_restriction() {
    let restriction_roles = vec![role_ref("rid1", "admin")];
    let ctx = SecurityContext::test_build()
        .authentication_context(AuthenticationContext::Password)
        .principal(make_user_identity("uid"))
        .token_restriction(TokenRestriction {
            id: "tr1".to_string(),
            domain_id: "d1".to_string(),
            allow_rescope: true,
            allow_renew: false,
            role_ids: vec!["rid1".to_string()],
            roles: Some(copy_roles(&restriction_roles)),
            project_id: Some("pid".to_string()),
            user_id: Some("uid".to_string()),
        })
        .build();
    let roles = calculate_effective_roles(&mut Fake::with(vec![]), &ctx, &make_project_scope("pid")).unwrap();
    assert_eq!(roles.len(), 1);
    assert!(roles[0].same_as(&restriction_roles[0]));
}

#[test]
fn test_project_scope_appcred_filters_missing_role() {
    let mut fake = Fake::with(vec![assignment_with_role("admin")]);
    let ac = ApplicationCredential {
        id: "ac1".to_string(),
        user_id: "uid".to_string(),
        project_id: "pid".to_string(),
        name: "cred".to_string(),
        description: None,
        roles: vec![role_ref("admin", "admin"), role_ref("viewer", "viewer")],
        unrestricted: false,
        expires_at: None,
    };
    let ctx = context(
        AuthenticationContext::ApplicationCredential {
            application_credential: ac,
            token: None,
        },
        make_user_identity("uid"),
    );
    let roles = calculate_effective_roles(&mut fake, &ctx, &make_project_scope("pid")).unwrap();
    assert_eq!(roles.len(), 1);
    assert_eq!(roles[0].id, "admin");
}

#[test]
fn test_project_scope_spiffe_matching_authz() {
    let binding = make_spiffe_binding(
        "spiffe://domain/ns/workload",
        false,
        Some(vec![SpiffeAuthorization::Project {
            project_id: "pid".to_string(),
            role_ids: Some(vec!["spiffe_role".to_string()]),
        }]),
    );
    let ctx = context(
        AuthenticationContext::Spiffe(binding),
        make_spiffe_principal("spiffe://domain/ns/workload", "spire-agent"),
    );
    let roles = calculate_effective_roles(&mut Fake::with(vec![]), &ctx, &make_project_scope("pid")).unwrap();
    assert_eq!(roles.len(), 1);
    assert_eq!(roles[0].id, "spiffe_role");
}

#[test]
fn test_domain_scope_empty_assignments_error() {
    let ctx = context(AuthenticationContext::Password, make_user_identity("uid"));
    assert!(matches!(
        calculate_effective_roles(&mut Fake::with(vec![]), &ctx, &make_domain_scope("did")),
        Err(AuthenticationError::ActorHasNoRolesOnTarget)
    ));
}

#[test]
fn test_project_scope_empty_assignments_error() {
    let ctx = context(AuthenticationContext::Password, make_user_identity("uid"));
    assert!(matches!(
        calculate_effective_roles(&mut Fake::with(vec![]), &ctx, &make_project_scope("pid")),
        Err(AuthenticationError::ActorHasNoRolesOnTarget)
    ));
}

#[test]
fn test_system_scope_empty_assignments_error() {
    let ctx = context(AuthenticationContext::Password, make_user_identity("uid"));
    assert!(matches!(
        calculate_effective_roles(&mut Fake::with(vec![]), &ctx, &ScopeInfo::System("all".into())),
        Err(AuthenticationError::ActorHasNoRolesOnTarget)
    ));
}

#[test]
fn test_domain_scope_disabled_error() {
    let ctx = context(AuthenticationContext::Password, make_user_identity("uid"));
    let mut d = default_domain();
    d.id = "did".into();
    d.enabled = false;
    match calculate_effective_roles(&mut Fake::with(vec![]), &ctx, &ScopeInfo::Domain(d)) {
        Err(AuthenticationError::DomainDisabled(id)) if id == "did" => {}
        _ => panic!("disabled domain must be refused"),
    }
}

#[test]
fn test_system_scope_spiffe_system_true() {
    let binding = make_spiffe_binding(
        "spiffe://domain/ns/system-workload",
        true,
        Some(vec![SpiffeAuthorization::System {
            system_id: "all".to_string(),
            role_ids: None,
        }]),
    );
    let ctx = context(
        AuthenticationContext::Spiffe(binding),
        make_spiffe_principal("spiffe://domain/ns/system-workload", "spire-agent"),
    );
    let mut fake = Fake::with(vec![]);
    fake.roles = Ok(vec![Role {
        id: "reader".into(),
        name: "reader".into(),
        description: None,
        domain_id: None,
    }]);
    let roles = calculate_effective_roles(&mut fake, &ctx, &ScopeInfo::System("all".into())).unwrap();
    assert_eq!(roles.len(), 1);
    assert_eq!(roles[0].id, "reader");
}

#[test]
fn test_system_scope_spiffe_system_false() {
    let binding = make_spiffe_binding(
        "spiffe://domain/ns/workload",
        false,
        Some(vec![SpiffeAuthorization::System {
            system_id: "all".to_string(),
            role_ids: None,
        }]),
    );
    let ctx = context(
        AuthenticationContext::Spiffe(binding),
        make_spiffe_principal("spiffe://domain/ns/workload", "spire-agent"),
    );
    assert!(matches!(
        calculate_effective_roles(&mut Fake::with(vec![]), &ctx, &ScopeInfo::System("all".into())),
        Err(AuthenticationError::ActorHasNoRolesOnTarget)
    ));
}

#[test]
fn test_domain_scope_provider_error() {
    let ctx = context(AuthenticationContext::Password, make_user_identity("uid"));
    let mut fake = Fake::with(vec![]);
    fake.assignments = Err("db down".into());
    assert!(matches!(
        calculate_effective_roles(&mut fake, &ctx, &make_domain_scope("did")),
        Err(AuthenticationError::Provider { .. })
    ));
}

#[test]
fn test_new_for_scope_unscoped_success() {
    let ctx = SecurityContext::test_build()
        .authentication_context(AuthenticationContext::Password)
        .principal(make_user_identity("uid"))
        .authorization(AuthzInfo {
            scope: ScopeInfo::Unscoped,
            roles: Some(Vec::new()),
        })
        .build();
    let validated = new_for_scope(&mut Fake::with(vec![]), ctx, ScopeInfo::Unscoped).unwrap();
    let roles = validated.inner().authorization().unwrap().effective_roles();
    assert!(roles.is_none() || roles.unwrap().is_empty());
}

#[test]
fn test_new_for_scope_project_scoped_success() {
    let ctx = SecurityContext::test_build()
        .authentication_context(AuthenticationContext::Password)
        .principal(make_user_identity("uid"))
        .authorization(AuthzInfo {
            scope: make_project_scope("pid"),
            roles: Some(Vec::new()),
        })
        .build();
    let mut fake = Fake::with(vec![assignment_with_role("admin_role")]);
    let validated = new_for_scope(&mut fake, ctx, make_project_scope("pid")).unwrap();
    let roles = validated.inner().authorization().unwrap().effective_roles().unwrap();
    assert_eq!(roles.len(), 1);
    assert_eq!(roles[0].id, "admin_role");
    assert!(validated.inner().fully_resolved().is_ok());
}

#[test]
fn test_new_for_scope_project_scoped_no_roles_fails() {
    let ctx = SecurityContext::test_build()
        .authentication_context(AuthenticationContext::Password)
        .principal(make_user_identity("uid"))
        .authorization(AuthzInfo {
            scope: make_project_scope("pid"),
            roles: Some(Vec::new()),
        })
        .build();
    assert!(matches!(
        new_for_scope(&mut Fake::with(vec![]), ctx, make_project_scope("pid")),
        Err(AuthenticationError::ActorHasNoRolesOnTarget)
    ));
}

fn assignment_with_role_actor(rid: &str, actor: &str) -> Assignment {
    let mut a = assignment_with_role(rid);
    a.actor_id = actor.into();
    a
}

fn restriction(role_ids: Vec<&str>, roles: Option<Vec<RoleRef>>) -> TokenRestriction {
    TokenRestriction {
        id: "tr1".to_string(),
        domain_id: "d1".to_string(),
        allow_rescope: true,
        allow_renew: false,
        role_ids: role_ids.into_iter().map(|r| r.to_string()).collect(),
        roles,
        project_id: Some("pid".to_string()),
        user_id: Some("uid".to_string()),
    }
}

fn restricted_context(tr: TokenRestriction) -> SecurityContext {
    SecurityContext::test_build()
        .authentication_context(AuthenticationContext::Password)
        .principal(make_user_identity("uid"))
        .token_restriction(tr)
        .build()
}

fn appcred_context(roles: Vec<RoleRef>) -> SecurityContext {
    let ac = ApplicationCredential {
        id: "ac1".to_string(),
        user_id: "uid".to_string(),
        project_id: "pid".to_string(),
        name: "cred".to_string(),
        description: None,
        roles,
        unrestricted: false,
        expires_at: None,
    };
    context(
        AuthenticationContext::ApplicationCredential {
            application_credential: ac,
            token: None,
        },
        make_user_identity("uid"),
    )
}

fn spiffe_project_context(authorizations: Option<Vec<SpiffeAuthorization>>) -> SecurityContext {
    let binding = make_spiffe_binding("spiffe://domain/ns/workload", false, authorizations);
    context(
        AuthenticationContext::Spiffe(binding),
        make_spiffe_principal("spiffe://domain/ns/workload", "spire-agent"),
    )
}

fn disabled_project_scope(pid: &str) -> ScopeInfo {
    let mut project = make_project(pid);
    project.enabled = false;
    ScopeInfo::Project {
        project,
        project_domain: default_domain(),
    }
}

fn disabled_project_domain_scope(pid: &str) -> ScopeInfo {
    let mut domain = default_domain();
    domain.enabled = false;
    domain.name = "disabled".to_string();
    ScopeInfo::Project {
        project: make_project(pid),
        project_domain: domain,
    }
}

fn is_no_roles(r: Result<Vec<RoleRef>, AuthenticationError>) -> bool {
    matches!(r, Err(AuthenticationError::ActorHasNoRolesOnTarget))
}

fn is_provider_error(r: Result<Vec<RoleRef>, AuthenticationError>) -> bool {
    matches!(r, Err(AuthenticationError::Provider { .. }))
}

#[test]
fn test_project_scope_token_restriction_expand_role_ids() {
    let ctx = restricted_context(restriction(vec!["rid1", "rid2"], None));
    let mut fake = Fake::with(vec![]);
    fake.expansion = Expansion::Name("rid1".to_string(), "admin".to_string());
    let roles = calculate_effective_roles(&mut fake, &ctx, &make_project_scope("pid")).unwrap();
    assert_eq!(fake.expanded.len(), 1);
    assert_eq!(fake.expanded[0].len(), 2);
    assert!(fake.expanded[0].iter().any(|r| r.id == "rid1"));
    assert_eq!(roles.len(), 2);
    assert!(roles.iter().any(|r| r.id == "rid1"));
    assert!(roles.iter().any(|r| r.id == "rid2"));
    assert!(fake.queries.is_empty());
}

#[test]
fn test_project_scope_disabled_error() {
    let ctx = context(AuthenticationContext::Password, make_user_identity("uid"));
    let mut fake = Fake::with(vec![]);
    match calculate_effective_roles(&mut fake, &ctx, &disabled_project_scope("pid")) {
        Err(AuthenticationError::ProjectDisabled(id)) if id == "pid" => {}
        _ => panic!("disabled project must be refused"),
    }
    assert_eq!(fake.calls(), 0);
}

#[test]
fn test_project_scope_disabled_domain_error() {
    let ctx = context(AuthenticationContext::Password, make_user_identity("uid"));
    let mut fake = Fake::with(vec![]);
    match calculate_effective_roles(&mut fake, &ctx, &disabled_project_domain_scope("pid")) {
        Err(AuthenticationError::DomainDisabled(id)) if id == "d1" => {}
        _ => panic!("project in a disabled domain must be refused"),
    }
    assert_eq!(fake.calls(), 0);
}

#[test]
fn test_trust_scope_disabled_project_error() {
    let ctx = context(AuthenticationContext::Password, make_user_identity("trustor"));
    let mut scope = make_trust_scope("trustor", "trustee", "pid", None);
    if let ScopeInfo::TrustProject(tpi) = &mut scope {
        tpi.project.enabled = false;
    }
    let mut fake = Fake::with(vec![]);
    match calculate_effective_roles(&mut fake, &ctx, &scope) {
        Err(AuthenticationError::ProjectDisabled(id)) if id == "pid" => {}
        _ => panic!("trust on a disabled project must be refused"),
    }
    assert_eq!(fake.calls(), 0);
}

#[test]
fn test_trust_scope_disabled_domain_error() {
    let ctx = context(AuthenticationContext::Password, make_user_identity("trustor"));
    let mut scope = make_trust_scope("trustor", "trustee", "pid", None);
    if let ScopeInfo::TrustProject(tpi) = &mut scope {
        tpi.project_domain.enabled = false;
        tpi.project_domain.name = "disabled".to_string();
    }
    let mut fake = Fake::with(vec![]);
    match calculate_effective_roles(&mut fake, &ctx, &scope) {
        Err(AuthenticationError::DomainDisabled(id)) if id == "d1" => {}
        _ => panic!("trust on a project in a disabled domain must be refused"),
    }
    assert_eq!(fake.calls(), 0);
}

#[test]
fn test_project_scope_spiffe_authorizations_none() {
    let ctx = spiffe_project_context(None);
    let mut fake = Fake::with(vec![]);
    assert!(is_no_roles(calculate_effective_roles(&mut fake, &ctx, &make_project_scope("pid"))));
    let q = &fake.queries[0];
    assert_eq!(q.project_id.as_deref(), Some("pid"));
    assert_eq!(q.effective, Some(true));
    assert_eq!(q.include_names, Some(true));
}

#[test]
fn test_project_scope_spiffe_no_matching_project() {
    let ctx = spiffe_project_context(Some(vec![SpiffeAuthorization::Project {
        project_id: "other_pid".to_string(),
        role_ids: Some(vec!["spiffe_role".to_string()]),
    }]));
    let mut fake = Fake::with(vec![]);
    assert!(is_no_roles(calculate_effective_roles(&mut fake, &ctx, &make_project_scope("pid"))));
    let q = &fake.queries[0];
    assert_eq!(q.project_id.as_deref(), Some("pid"));
    assert_eq!(q.effective, Some(true));
    assert_eq!(q.include_names, Some(true));
    assert!(fake.expanded.is_empty());
}

#[test]
fn test_project_scope_spiffe_role_ids_none() {
    let ctx = spiffe_project_context(Some(vec![SpiffeAuthorization::Project {
        project_id: "pid".to_string(),
        role_ids: None,
    }]));
    let mut fake = Fake::with(vec![]);
    assert!(is_no_roles(calculate_effective_roles(&mut fake, &ctx, &make_project_scope("pid"))));
    let q = &fake.queries[0];
    assert_eq!(q.project_id.as_deref(), Some("pid"));
    assert_eq!(q.effective, Some(true));
    assert_eq!(q.include_names, Some(false));
    assert!(fake.expanded.is_empty());
}

#[test]
fn test_project_scope_appcred_all_roles_pass() {
    let mut fake = Fake::with(vec![assignment_with_role("admin"), assignment_with_role("viewer")]);
    let ctx = appcred_context(vec![role_ref("admin", "admin"), role_ref("viewer", "viewer")]);
    let roles = calculate_effective_roles(&mut fake, &ctx, &make_project_scope("pid")).unwrap();
    assert_eq!(roles.len(), 2);
    assert!(roles.iter().any(|r| r.id == "admin"));
    assert!(roles.iter().any(|r| r.id == "viewer"));
    assert_eq!(fake.queries[0].user_id.as_deref(), Some("uid"));
    assert_eq!(fake.queries[0].project_id.as_deref(), Some("pid"));
}

#[test]
fn test_project_scope_token_restriction_empty_roles() {
    let ctx = restricted_context(restriction(vec!["rid1"], Some(Vec::new())));
    let mut fake = Fake::with(vec![]);
    assert!(is_no_roles(calculate_effective_roles(&mut fake, &ctx, &make_project_scope("pid"))));
    assert_eq!(fake.calls(), 0);
}

#[test]
fn test_new_for_scope_explicit_empty_roles_error() {
    let ctx = SecurityContext::test_build()
        .authentication_context(AuthenticationContext::Password)
        .principal(make_user_identity("uid"))
        .authorization(AuthzInfo {
            scope: make_project_scope("pid"),
            roles: Some(Vec::new()),
        })
        .build();
    let mut fake = Fake::with(vec![]);
    assert!(matches!(
        new_for_scope(&mut fake, ctx, make_project_scope("pid")),
        Err(AuthenticationError::ActorHasNoRolesOnTarget)
    ));
    let q = &fake.queries[0];
    assert_eq!(q.user_id.as_deref(), Some("uid"));
    assert_eq!(q.project_id.as_deref(), Some("pid"));
    assert_eq!(q.effective, Some(true));
    assert_eq!(q.include_names, Some(true));
}

#[test]
fn test_trust_scope_implied_role_expansion() {
    let mut fake = Fake::with(vec![
        assignment_with_role_actor("base_role", "trustor"),
        assignment_with_role_actor("implied_role", "trustor"),
    ]);
    fake.expansion = Expansion::Push(role_ref("implied_role", "implied"));
    let ctx = context(AuthenticationContext::Password, make_user_identity("trustor"));
    let scope = make_trust_scope("trustor", "trustee", "pid", Some(vec![role_ref("base_role", "base")]));
    let roles = calculate_effective_roles(&mut fake, &ctx, &scope).unwrap();
    assert_eq!(roles.len(), 2);
    assert!(roles.iter().any(|r| r.id == "base_role"));
    assert!(roles.iter().any(|r| r.id == "implied_role"));
    assert_eq!(fake.queries[0].user_id.as_deref(), Some("trustor"));
    assert_eq!(fake.queries[0].project_id.as_deref(), Some("pid"));
    assert_eq!(fake.queries[0].effective, Some(true));
}

#[test]
fn test_project_scope_spiffe_implied_role_expansion() {
    let ctx = spiffe_project_context(Some(vec![SpiffeAuthorization::Project {
        project_id: "pid".to_string(),
        role_ids: Some(vec!["spiffe_role".to_string()]),
    }]));
    let mut fake = Fake::with(vec![]);
    fake.expansion = Expansion::Push(role_ref("implied_role", "implied"));
    let roles = calculate_effective_roles(&mut fake, &ctx, &make_project_scope("pid")).unwrap();
    assert_eq!(roles.len(), 2);
    assert!(roles.iter().any(|r| r.id == "spiffe_role"));
    assert!(roles.iter().any(|r| r.id == "implied_role"));
    assert!(fake.queries.is_empty());
}

#[test]
fn test_system_scope_spiffe_non_system_no_assignments() {
    let ctx = spiffe_project_context(None);
    let mut fake = Fake::with(vec![]);
    assert!(is_no_roles(calculate_effective_roles(&mut fake, &ctx, &ScopeInfo::System("all".to_string()))));
    assert_eq!(fake.calls(), 0);
}

#[test]
fn test_project_scope_provider_error() {
    let ctx = context(AuthenticationContext::Password, make_user_identity("uid"));
    let mut fake = Fake::with(vec![]);
    fake.assignments = Err("db down".into());
    assert!(is_provider_error(calculate_effective_roles(&mut fake, &ctx, &make_project_scope("pid"))));
    assert_eq!(fake.queries[0].include_names, Some(true));
}

#[test]
fn test_system_scope_provider_error() {
    let ctx = context(AuthenticationContext::Password, make_user_identity("uid"));
    let mut fake = Fake::with(vec![]);
    fake.assignments = Err("db down".into());
    assert!(is_provider_error(calculate_effective_roles(&mut fake, &ctx, &ScopeInfo::System("all".to_string()))));
    assert_eq!(fake.queries[0].system_id.as_deref(), Some("all"));
    assert_eq!(fake.queries[0].user_id.as_deref(), Some("uid"));
}

#[test]
fn test_trust_scope_provider_error() {
    let ctx = context(AuthenticationContext::Password, make_user_identity("trustor"));
    let mut fake = Fake::with(vec![]);
    fake.assignments = Err("db down".into());
    let scope = make_trust_scope("trustor", "trustee", "pid", None);
    assert!(is_provider_error(calculate_effective_roles(&mut fake, &ctx, &scope)));
    assert_eq!(fake.queries[0].user_id.as_deref(), Some("trustor"));
}

#[test]
fn test_project_scope_spiffe_expand_implied_error() {
    let ctx = spiffe_project_context(Some(vec![SpiffeAuthorization::Project {
        project_id: "pid".to_string(),
        role_ids: Some(vec!["spiffe_role".to_string()]),
    }]));
    let mut fake = Fake::with(vec![]);
    fake.expansion = Expansion::Fail;
    assert!(is_provider_error(calculate_effective_roles(&mut fake, &ctx, &make_project_scope("pid"))));
}

#[test]
fn test_trust_scope_expand_implied_error() {
    let mut fake = Fake::with(vec![assignment_with_role("trust_role")]);
    fake.expansion = Expansion::Fail;
    let ctx = context(AuthenticationContext::Password, make_user_identity("trustor"));
    let scope = make_trust_scope("trustor", "trustee", "pid", Some(vec![role_ref("trust_role", "trustadmin")]));
    assert!(is_provider_error(calculate_effective_roles(&mut fake, &ctx, &scope)));
}

#[test]
fn test_project_scope_token_restriction_expand_error() {
    let ctx = restricted_context(restriction(vec!["rid1"], None));
    let mut fake = Fake::with(vec![]);
    fake.expansion = Expansion::Fail;
    assert!(is_provider_error(calculate_effective_roles(&mut fake, &ctx, &make_project_scope("pid"))));
}

#[test]
fn test_system_scope_spiffe_list_roles_error() {
    let binding = make_spiffe_binding(
        "spiffe://domain/ns/system-workload",
        true,
        Some(vec![SpiffeAuthorization::System {
            system_id: "all".to_string(),
            role_ids: None,
        }]),
    );
    let ctx = context(
        AuthenticationContext::Spiffe(binding),
        make_spiffe_principal("spiffe://domain/ns/system-workload", "spire-agent"),
    );
    let mut fake = Fake::with(vec![]);
    fake.roles = Err("db".into());
    assert!(is_provider_error(calculate_effective_roles(&mut fake, &ctx, &ScopeInfo::System("all".to_string()))));
    assert_eq!(fake.role_queries, vec![Some("reader".to_string())]);
}

#[test]
fn test_project_scope_appcred_empty_roles() {
    let mut fake = Fake::with(vec![assignment_with_role("admin")]);
    let ctx = appcred_context(Vec::new());
    assert!(is_no_roles(calculate_effective_roles(&mut fake, &ctx, &make_project_scope("pid"))));
    assert_eq!(fake.queries[0].include_names, Some(true));
}

#[test]
fn test_project_scope_appcred_all_roles_missing() {
    let mut fake = Fake::with(vec![assignment_with_role("admin")]);
    let ctx = appcred_context(vec![role_ref("other", "other")]);
    assert!(is_no_roles(calculate_effective_roles(&mut fake, &ctx, &make_project_scope("pid"))));
}

#[test]
fn test_trust_scope_expand_adds_missing_role() {
    let mut fake = Fake::with(vec![assignment_with_role_actor("base_role", "trustor")]);
    fake.expansion = Expansion::Push(role_ref("extra_role", "extra"));
    let ctx = context(AuthenticationContext::Password, make_user_identity("trustor"));
    let scope = make_trust_scope("trustor", "trustee", "pid", Some(vec![role_ref("base_role", "base")]));
    assert!(is_no_roles(calculate_effective_roles(&mut fake, &ctx, &scope)));
}

#[test]
fn test_trust_scope_no_roles_no_assignments() {
    let mut fake = Fake::with(vec![]);
    let ctx = context(AuthenticationContext::Password, make_user_identity("trustor"));
    let scope = make_trust_scope("trustor", "trustee", "pid", None);
    assert!(is_no_roles(calculate_effective_roles(&mut fake, &ctx, &scope)));
    assert_eq!(fake.queries[0].project_id.as_deref(), Some("pid"));
}

#[test]
fn test_project_scope_token_restriction_no_role_ids_fallthrough() {
    let ctx = restricted_context(restriction(vec![], Some(vec![role_ref("restricted", "restricted")])));
    let mut fake = Fake::with(vec![]);
    assert!(is_no_roles(calculate_effective_roles(&mut fake, &ctx, &make_project_scope("pid"))));
    let q = &fake.queries[0];
    assert_eq!(q.user_id.as_deref(), Some("uid"));
    assert_eq!(q.project_id.as_deref(), Some("pid"));
    assert_eq!(q.include_names, Some(true));
}

#[test]
fn new_for_scope_requested_scope_replaces_bound_one() {
    let ctx = SecurityContext::test_build()
        .authentication_context(AuthenticationContext::Password)
        .principal(make_user_identity("uid"))
        .authorization(AuthzInfo {
            scope: make_domain_scope("did"),
            roles: Some(vec![role_ref("old_role", "old")]),
        })
        .build();
    let mut fake = Fake::with(vec![assignment_with_role("admin_role")]);
    let validated = new_for_scope(&mut fake, ctx, make_project_scope("pid")).unwrap();
    let authz = validated.inner().authorization().unwrap();
    assert!(matches!(&authz.scope, ScopeInfo::Project { project, .. } if project.id == "pid"));
    let roles = authz.effective_roles().unwrap();
    assert_eq!(roles.len(), 1);
    assert_eq!(roles[0].id, "admin_role");
    assert_eq!(fake.queries[0].project_id.as_deref(), Some("pid"));
    assert!(fake.queries[0].domain_id.is_none());
    assert!(validated.inner().fully_resolved().is_ok());
}

#[test]
fn built_context_carries_a_fresh_audit_id() {
    let ctx = context(AuthenticationContext::Password, make_user_identity("uid"));
    assert_eq!(ctx.audit_ids().len(), 1);
    assert_eq!(ctx.audit_ids()[0].len(), 22);
}
