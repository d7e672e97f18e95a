//! Effective roles of a principal on a scope.
//!
//! Resolution alternates between decisions and provider queries (role
//! assignments, implied roles, role listing). It is written as a state
//! machine: [`RoleStep::start`] decides the first query from the security
//! context and the scope; each answer is handed to the step, which decides
//! the next query or the resulting roles. The caller runs the queries.
//!
//! * For application credentials: the roles frozen on the credential that
//!   the principal still holds.
//! * For trusts: the roles the trustor holds on the project, or the roles
//!   declared on the trust (expanded), which must all be held by the
//!   trustor; domain-specific roles are dropped.
//! * For a project scope with a token restriction listing roles: the roles
//!   of the restriction, without checking direct assignment.
//! * For a SPIFFE binding authorizing the project with roles: those roles,
//!   expanded. When its authorization for the project lists no roles, the
//!   user's effective assignments on the project, queried without role
//!   names.
//! * For domain, project and system scopes otherwise: the user's effective
//!   assignments on the target.
//! * For a SPIFFE system identity on the system scope: the `reader` role.
//! * For unscoped: no roles.
//! Every scoped resolution must yield at least one role.
use vstd::prelude::*;
use crate::assignment::{
    Assignment, AssignmentView, RoleAssignmentListParameters, assignment_role_ref,
    assignment_views,
};
use crate::auth::{
    AuthError, AuthenticationContext, AuthenticationError, ScopeInfo, SecurityContext,
    principal_user_id, scope_check, unit_view,
};
use crate::role::{
    Role, RoleListParameters, RoleRef, RoleRefView, clone_role_refs, role_ref_of, role_views,
};
use crate::spiffe::{SpiffeAuthorization, authorization_role_ids, refs_for_ids, role_refs_for_ids};
use crate::util::{contains_string, opt_str, strs};

verus! {

/// What to do with the role assignments returned by a query.
pub enum AssignmentFollowUp {
    /// Convert the assignments into role references.
    ToRoles,
    /// Keep those roles of the application credential that the user holds.
    AppCredential(Vec<RoleRef>),
    /// Check the roles declared on a trust, if any, against the trustor's.
    Trust(Option<Vec<RoleRef>>),
}

/// What to do with the roles returned by an implied role expansion.
pub enum ExpansionFollowUp {
    /// Use the expanded roles.
    Plain,
    /// The expanded trust roles must all be among the trustor's role IDs;
    /// domain-specific roles are then dropped.
    Trust(Vec<String>),
}

/// A step of the role resolution.
pub enum RoleStep {
    /// Resolution finished with these roles.
    Done(Vec<RoleRef>),
    /// Query role assignments.
    ListAssignments {
        params: RoleAssignmentListParameters,
        label: String,
        follow_up: AssignmentFollowUp,
    },
    /// Expand the implied roles of `roles`.
    ExpandImplied { roles: Vec<RoleRef>, label: String, follow_up: ExpansionFollowUp },
    /// List roles.
    ListRoles { params: RoleListParameters, label: String },
}

/// The target of an effective assignment query.
pub enum QueryTarget {
    Domain(Seq<char>),
    Project(Seq<char>),
    System(Seq<char>),
}

/// Whether `p` asks for the effective assignments (with names and implied
/// roles) of `user` on `target`.
pub open spec fn effective_query(p: RoleAssignmentListParameters, user: Seq<char>, target: QueryTarget) -> bool {
    effective_query_with(p, user, target, true)
}

/// Whether `p` asks for the effective assignments (with implied roles) of
/// `user` on `target`, with role names exactly when `names`.
pub open spec fn effective_query_with(
    p: RoleAssignmentListParameters,
    user: Seq<char>,
    target: QueryTarget,
    names: bool,
) -> bool {
    &&& opt_str(p.user_id) == Some(user)
    &&& p.role_id is None
    &&& p.group_id is None
    &&& p.include_names == Some(names)
    &&& p.effective == Some(true)
    &&& p.resolve_implied_roles
    &&& match target {
        QueryTarget::Domain(d) => opt_str(p.domain_id) == Some(d) && p.project_id is None
            && p.system_id is None,
        QueryTarget::Project(pid) => opt_str(p.project_id) == Some(pid) && p.domain_id is None
            && p.system_id is None,
        QueryTarget::System(s) => opt_str(p.system_id) == Some(s) && p.domain_id is None
            && p.project_id is None,
    }
}

/// Builds the effective assignment query of `user` on a target.
fn effective_params(user: String, target_type: u8, target: String, names: bool) -> (res: RoleAssignmentListParameters)
    requires
        target_type < 3,
    ensures
        effective_query_with(
            res,
            user@,
            if target_type == 0 {
                QueryTarget::Domain(target@)
            } else if target_type == 1 {
                QueryTarget::Project(target@)
            } else {
                QueryTarget::System(target@)
            },
            names,
        ),
{
    let mut p = RoleAssignmentListParameters::empty();
    p.user_id = Some(user);
    p.include_names = Some(names);
    p.effective = Some(true);
    p.resolve_implied_roles = true;
    if target_type == 0 {
        p.domain_id = Some(target);
    } else if target_type == 1 {
        p.project_id = Some(target);
    } else {
        p.system_id = Some(target);
    }
    p
}

/// The role IDs of a sequence of assignments.
pub open spec fn assignment_role_ids(a: Seq<AssignmentView>) -> Seq<Seq<char>> {
    a.map_values(|x: AssignmentView| x.role_id)
}

/// The role references of a sequence of assignments.
pub open spec fn assignment_refs(a: Seq<AssignmentView>) -> Seq<RoleRefView> {
    a.map_values(|x: AssignmentView| assignment_role_ref(x))
}

/// Converts assignments into role references.
pub fn assignments_to_roles(assignments: Vec<Assignment>) -> (res: Vec<RoleRef>)
    ensures
        role_views(res@) == assignment_refs(assignment_views(assignments@)),
{
    let mut converted: Vec<RoleRef> = Vec::new();
    let mut rest = assignments;
    let ghost all = rest@;
    let n = rest.len();
    let mut i: usize = 0;
    while rest.len() > 0
        invariant
            rest@ == all.subrange(i as int, all.len() as int),
            i + rest@.len() == all.len(),
            all.len() == n,
            role_views(converted@) == assignment_refs(assignment_views(all.subrange(0, i as int))),
        decreases rest.len(),
    {
        let a = rest.remove(0);
        let ghost av = a@;
        let ghost before = converted@;
        assert(all.subrange(0, i + 1) =~= all.subrange(0, i as int).push(a));
        converted.push(a.into_role_ref());
        assert(role_views(converted@) =~= role_views(before).push(assignment_role_ref(av)));
        i += 1;
        assert(role_views(converted@) =~= assignment_refs(assignment_views(all.subrange(0, i as int))));
    }
    assert(all.subrange(0, i as int) =~= all);
    converted
}

/// The role IDs held according to a list of assignments.
fn assignment_role_id_list(assignments: &Vec<Assignment>) -> (res: Vec<String>)
    ensures
        strs(res@) == assignment_role_ids(assignment_views(assignments@)),
{
    let mut ids: Vec<String> = Vec::new();
    let mut i: usize = 0;
    while i < assignments.len()
        invariant
            i <= assignments.len(),
            strs(ids@) == assignment_role_ids(assignment_views(assignments@.subrange(0, i as int))),
        decreases assignments.len() - i,
    {
        let ghost before = strs(ids@);
        ids.push(assignments[i].role_id.clone());
        assert(assignments@.subrange(0, i + 1) =~= assignments@.subrange(0, i as int).push(
            assignments@[i as int],
        ));
        assert(strs(ids@) =~= before.push(assignments@[i as int].role_id@));
        i += 1;
        assert(strs(ids@) =~= assignment_role_ids(assignment_views(assignments@.subrange(0, i as int))));
    }
    assert(assignments@.subrange(0, i as int) =~= assignments@);
    ids
}

/// The roles among `roles` whose ID is in `ids`, in order.
pub open spec fn roles_with_ids(roles: Seq<RoleRefView>, ids: Seq<Seq<char>>) -> Seq<RoleRefView> {
    roles.filter(|r: RoleRefView| ids.contains(r.id))
}

/// Keeps the roles whose ID is in `ids`.
fn keep_roles_with_ids(roles: &Vec<RoleRef>, ids: &Vec<String>) -> (res: Vec<RoleRef>)
    ensures
        role_views(res@) == roles_with_ids(role_views(roles@), strs(ids@)),
{
    let mut kept: Vec<RoleRef> = Vec::new();
    let mut i: usize = 0;
    while i < roles.len()
        invariant
            i <= roles.len(),
            role_views(kept@) == roles_with_ids(role_views(roles@.subrange(0, i as int)), strs(ids@)),
        decreases roles.len() - i,
    {
        let ghost before = role_views(kept@);
        let ghost sub = role_views(roles@.subrange(0, i as int));
        assert(role_views(roles@.subrange(0, i + 1)) =~= sub.push(roles@[i as int]@));
        proof {
            sub.lemma_filter_push(roles@[i as int]@, |r: RoleRefView| strs(ids@).contains(r.id));
        }
        if contains_string(ids, &roles[i].id) {
            kept.push(roles[i].clone());
            assert(role_views(kept@) =~= before.push(roles@[i as int]@));
        }
        i += 1;
    }
    assert(roles@.subrange(0, i as int) =~= roles@);
    kept
}

/// The roles among `roles` that are not domain-specific, in order.
pub open spec fn global_roles(roles: Seq<RoleRefView>) -> Seq<RoleRefView> {
    roles.filter(|r: RoleRefView| r.domain_id is None)
}

/// Keeps the roles that are not domain-specific.
fn keep_global_roles(roles: Vec<RoleRef>) -> (res: Vec<RoleRef>)
    ensures
        role_views(res@) == global_roles(role_views(roles@)),
{
    let mut kept: Vec<RoleRef> = Vec::new();
    let mut i: usize = 0;
    while i < roles.len()
        invariant
            i <= roles.len(),
            role_views(kept@) == global_roles(role_views(roles@.subrange(0, i as int))),
        decreases roles.len() - i,
    {
        let ghost before = role_views(kept@);
        let ghost sub = role_views(roles@.subrange(0, i as int));
        assert(role_views(roles@.subrange(0, i + 1)) =~= sub.push(roles@[i as int]@));
        proof {
            sub.lemma_filter_push(roles@[i as int]@, |r: RoleRefView| r.domain_id is None);
        }
        if roles[i].domain_id.is_none() {
            kept.push(roles[i].clone());
            assert(role_views(kept@) =~= before.push(roles@[i as int]@));
        }
        i += 1;
    }
    assert(roles@.subrange(0, i as int) =~= roles@);
    kept
}

/// Whether every role's ID is in `ids`.
fn all_roles_in(roles: &Vec<RoleRef>, ids: &Vec<String>) -> (res: bool)
    ensures
        res == (forall|j: int| 0 <= j < roles@.len() ==> strs(ids@).contains(#[trigger] roles@[j].id@)),
{
    let mut i: usize = 0;
    while i < roles.len()
        invariant
            i <= roles.len(),
            forall|j: int| 0 <= j < i ==> strs(ids@).contains(#[trigger] roles@[j].id@),
        decreases roles.len() - i,
    {
        if !contains_string(ids, &roles[i].id) {
            return false;
        }
        i += 1;
    }
    true
}

/// The error reported for a failed provider query.
pub open spec fn provider_error(message: Seq<char>, label: Seq<char>) -> AuthError {
    AuthError::Provider { message: message, context: Some(label) }
}

/// Finishing with resolved roles: a scoped resolution must find a role.
pub open spec fn finished(roles: Seq<RoleRefView>, res: Result<RoleStep, AuthenticationError>) -> bool {
    if roles.len() == 0 {
        res matches Err(e) && e@ == AuthError::ActorHasNoRolesOnTarget
    } else {
        res matches Ok(RoleStep::Done(r)) && role_views(r@) == roles
    }
}

/// Keeping the roles with given IDs keeps exactly those of the roles whose
/// ID is among them.
pub proof fn lemma_roles_with_ids(roles: Seq<RoleRefView>, ids: Seq<Seq<char>>, r: RoleRefView)
    ensures
        roles_with_ids(roles, ids).contains(r) <==> (roles.contains(r) && ids.contains(r.id)),
{
    let p = |x: RoleRefView| ids.contains(x.id);
    if roles.contains(r) && ids.contains(r.id) {
        let i = choose|i: int| 0 <= i < roles.len() && roles[i] == r;
        roles.lemma_filter_contains(p, i);
    }
    if roles.filter(p).contains(r) {
        roles.lemma_filter_contains_rev(p, r);
        let k = choose|k: int| 0 <= k < roles.filter(p).len() && roles.filter(p)[k] == r;
        roles.lemma_filter_pred(p, k);
    }
}

/// Dropping domain-specific roles keeps exactly the roles of no domain.
pub proof fn lemma_global_roles(roles: Seq<RoleRefView>, r: RoleRefView)
    ensures
        global_roles(roles).contains(r) <==> (roles.contains(r) && r.domain_id is None),
{
    let p = |x: RoleRefView| x.domain_id is None;
    if roles.contains(r) && r.domain_id is None {
        let i = choose|i: int| 0 <= i < roles.len() && roles[i] == r;
        roles.lemma_filter_contains(p, i);
    }
    if roles.filter(p).contains(r) {
        roles.lemma_filter_contains_rev(p, r);
        let k = choose|k: int| 0 <= k < roles.filter(p).len() && roles.filter(p)[k] == r;
        roles.lemma_filter_pred(p, k);
    }
}

/// The roles of assignments are, in order, each assignment's role: its ID
/// and its name, for no domain.
pub proof fn lemma_assignment_refs(a: Seq<AssignmentView>)
    ensures
        assignment_refs(a).len() == a.len(),
        forall|i: int|
            0 <= i < a.len() ==> (#[trigger] assignment_refs(a)[i]).id == a[i].role_id
                && assignment_refs(a)[i].name == a[i].role_name
                && assignment_refs(a)[i].domain_id is None,
{
}

/// Ends a scoped resolution.
fn finish(roles: Vec<RoleRef>) -> (res: Result<RoleStep, AuthenticationError>)
    ensures
        finished(role_views(roles@), res),
{
    if roles.len() == 0 {
        Err(AuthenticationError::ActorHasNoRolesOnTarget)
    } else {
        Ok(RoleStep::Done(roles))
    }
}

} // verus!

verus! {

/// Whether an authorization targets the project `pid`.
pub open spec fn authorizes_project(a: SpiffeAuthorization, pid: Seq<char>) -> bool {
    a matches SpiffeAuthorization::Project { project_id, .. } && project_id@ == pid
}

/// Whether `i` is the index of the first authorization targeting `pid`.
pub open spec fn first_project_authorization(auths: Seq<SpiffeAuthorization>, pid: Seq<char>, i: int) -> bool {
    &&& 0 <= i < auths.len()
    &&& authorizes_project(auths[i], pid)
    &&& forall|j: int| 0 <= j < i ==> !authorizes_project(#[trigger] auths[j], pid)
}

/// Whether the context is a SPIFFE binding with an authorization for the
/// project `pid`.
pub open spec fn spiffe_authorizes_project(c: AuthenticationContext, pid: Seq<char>) -> bool {
    c matches AuthenticationContext::Spiffe(b) && b.authorizations matches Some(auths) && exists|
        i: int,
    | first_project_authorization(auths@, pid, i)
}

/// The roles a SPIFFE binding grants on the project `pid`: those of its
/// first authorization for the project, when that one lists roles.
pub open spec fn spiffe_project_roles(c: AuthenticationContext, pid: Seq<char>) -> Option<Seq<RoleRefView>> {
    match c {
        AuthenticationContext::Spiffe(b) => match b.authorizations {
            Some(auths) => if exists|i: int| first_project_authorization(auths@, pid, i) {
                let i = choose|i: int| first_project_authorization(auths@, pid, i);
                match authorization_role_ids(auths@[i]) {
                    Some(ids) => Some(refs_for_ids(strs(ids@))),
                    None => None,
                }
            } else {
                None
            },
            None => None,
        },
        _ => None,
    }
}

/// Whether the context's token restriction lists roles.
pub open spec fn restriction_lists_roles(ctx: SecurityContext) -> bool {
    ctx@.token_restriction is Some && ctx@.token_restriction->0.role_ids@.len() > 0
}

/// The first step of the resolution for a valid scope.
pub open spec fn start_step(ctx: SecurityContext, scope: ScopeInfo, res: Result<RoleStep, AuthenticationError>) -> bool {
    let user = principal_user_id(ctx@.principal);
    match scope {
        ScopeInfo::Domain(d) => res matches Ok(RoleStep::ListAssignments { params, label, follow_up })
            && effective_query(params, user, QueryTarget::Domain(d.id@)) && label@
            == "resolving role assignments"@ && follow_up is ToRoles,
        ScopeInfo::Project { project, .. } => if restriction_lists_roles(ctx) {
            match ctx@.token_restriction->0.roles {
                Some(r) => finished(role_views(r@), res),
                None => res matches Ok(RoleStep::ExpandImplied { roles, label, follow_up })
                    && role_views(roles@) == refs_for_ids(strs(ctx@.token_restriction->0.role_ids@))
                    && label@ == "expanding token restriction roles"@ && follow_up is Plain,
            }
        } else if spiffe_project_roles(ctx@.authentication_context, project.id@) is Some {
            res matches Ok(RoleStep::ExpandImplied { roles, label, follow_up }) && role_views(roles@)
                == spiffe_project_roles(ctx@.authentication_context, project.id@)->0 && label@
                == "expanding scope roles"@ && follow_up is Plain
        } else {
            res matches Ok(RoleStep::ListAssignments { params, label, follow_up })
                && effective_query_with(
                params,
                user,
                QueryTarget::Project(project.id@),
                !spiffe_authorizes_project(ctx@.authentication_context, project.id@),
            ) && label@ == "resolving role assignments"@ && match ctx@.authentication_context {
                AuthenticationContext::ApplicationCredential { application_credential, .. } => {
                    match follow_up {
                        AssignmentFollowUp::AppCredential(r) => role_views(r@) == role_views(application_credential.roles@),
                        _ => false,
                    }
                },
                _ => follow_up is ToRoles,
            }
        },
        ScopeInfo::System(s) => match ctx@.authentication_context {
            AuthenticationContext::Spiffe(b) => if b.is_system {
                res matches Ok(RoleStep::ListRoles { params, label }) && opt_str(params.name)
                    == Some("reader"@) && params.domain_id is None && label@
                    == "searching reader role"@
            } else {
                res matches Err(e) && e@ == AuthError::ActorHasNoRolesOnTarget
            },
            _ => res matches Ok(RoleStep::ListAssignments { params, label, follow_up })
                && effective_query(params, user, QueryTarget::System(s@)) && label@
                == "resolving role assignments"@ && follow_up is ToRoles,
        },
        ScopeInfo::TrustProject(t) => match res {
            Ok(RoleStep::ListAssignments { params, label, follow_up: AssignmentFollowUp::Trust(r) }) => {
                effective_query(params, t.trust.trustor_user_id@, QueryTarget::Project(t.project.id@))
                    && label@ == "resolving trust role assignments"@
                    && crate::role::opt_role_views(r) == crate::role::opt_role_views(t.trust.roles)
            },
            _ => false,
        },
        ScopeInfo::Unscoped => res matches Ok(RoleStep::Done(r)) && r@.len() == 0,
    }
}

/// The first authorization of a SPIFFE binding that targets the project:
/// `None` when there is none, else `Some` of its roles, if it lists any.
#[verifier::loop_isolation(false)]
fn spiffe_roles_for_project(ctx: &SecurityContext, project_id: &String) -> (res: Option<Option<Vec<RoleRef>>>)
    ensures
        res is Some <==> spiffe_authorizes_project(ctx@.authentication_context, project_id@),
        match res {
            Some(Some(r)) => spiffe_project_roles(ctx@.authentication_context, project_id@) == Some(
                role_views(r@),
            ),
            _ => spiffe_project_roles(ctx@.authentication_context, project_id@) is None,
        },
{
    let binding = match ctx.authentication_context() {
        AuthenticationContext::Spiffe(binding) => binding,
        _ => {
            return None;
        },
    };
    let auths = match &binding.authorizations {
        Some(a) => a,
        None => {
            return None;
        },
    };
    let mut i: usize = 0;
    while i < auths.len()
        invariant
            i <= auths.len(),
            forall|j: int| 0 <= j < i ==> !authorizes_project(#[trigger] auths@[j], project_id@),
        decreases auths.len() - i,
    {
        let hit = match &auths[i] {
            SpiffeAuthorization::Project { project_id: pid, .. } => *pid == *project_id,
            _ => false,
        };
        if hit {
            assert(first_project_authorization(auths@, project_id@, i as int));
            let ghost k = choose|k: int| first_project_authorization(auths@, project_id@, k);
            assert(k == i) by {
                if k < i {
                    assert(!authorizes_project(auths@[k], project_id@));
                }
                if k > i {
                    assert(!authorizes_project(auths@[i as int], project_id@));
                }
            }
            let refs = auths[i].role_refs();
            return Some(refs);
        }
        i += 1;
    }
    None
}

impl RoleStep {
    /// Decides the first step of resolving the effective roles of the
    /// context's principal on `scope`. A scope whose targets are disabled is
    /// refused first.
    pub fn start(ctx: &SecurityContext, scope: &ScopeInfo) -> (res: Result<RoleStep, AuthenticationError>)
        ensures
            match scope_check(*scope) {
                Err(e) => res matches Err(x) && x@ == e,
                Ok(()) => start_step(*ctx, *scope, res),
            },
    {
        match scope.validate() {
            Err(e) => {
                return Err(e);
            },
            Ok(()) => {},
        }
        match scope {
            ScopeInfo::Domain(domain) => Ok(
                RoleStep::ListAssignments {
                    params: effective_params(ctx.principal().get_user_id(), 0, domain.id.clone(), true),
                    label: String::from_str("resolving role assignments"),
                    follow_up: AssignmentFollowUp::ToRoles,
                },
            ),
            ScopeInfo::Project { project, .. } => {
                if let Some(restriction) = ctx.token_restriction() {
                    if restriction.role_ids.len() > 0 {
                        return match &restriction.roles {
                            Some(roles) => finish(clone_role_refs(roles)),
                            None => Ok(
                                RoleStep::ExpandImplied {
                                    roles: role_refs_for_ids(&restriction.role_ids),
                                    label: String::from_str("expanding token restriction roles"),
                                    follow_up: ExpansionFollowUp::Plain,
                                },
                            ),
                        };
                    }
                }
                let spiffe = spiffe_roles_for_project(ctx, &project.id);
                let names = match spiffe {
                    Some(Some(roles)) => {
                        return Ok(
                            RoleStep::ExpandImplied {
                                roles,
                                label: String::from_str("expanding scope roles"),
                                follow_up: ExpansionFollowUp::Plain,
                            },
                        );
                    },
                    Some(None) => false,
                    None => true,
                };
                let follow_up = match ctx.authentication_context() {
                    AuthenticationContext::ApplicationCredential { application_credential, .. } => {
                        AssignmentFollowUp::AppCredential(clone_role_refs(&application_credential.roles))
                    },
                    _ => AssignmentFollowUp::ToRoles,
                };
                Ok(
                    RoleStep::ListAssignments {
                        params: effective_params(ctx.principal().get_user_id(), 1, project.id.clone(), names),
                        label: String::from_str("resolving role assignments"),
                        follow_up,
                    },
                )
            },
            ScopeInfo::System(system_id) => {
                if let AuthenticationContext::Spiffe(binding) = ctx.authentication_context() {
                    if binding.is_system {
                        return Ok(
                            RoleStep::ListRoles {
                                params: RoleListParameters {
                                    domain_id: None,
                                    name: Some(String::from_str("reader")),
                                },
                                label: String::from_str("searching reader role"),
                            },
                        );
                    } else {
                        return finish(Vec::new());
                    }
                }
                Ok(
                    RoleStep::ListAssignments {
                        params: effective_params(ctx.principal().get_user_id(), 2, system_id.clone(), true),
                        label: String::from_str("resolving role assignments"),
                        follow_up: AssignmentFollowUp::ToRoles,
                    },
                )
            },
            ScopeInfo::TrustProject(tpi) => Ok(
                RoleStep::ListAssignments {
                    params: effective_params(
                        tpi.trust.trustor_user_id.clone(),
                        1,
                        tpi.project.id.clone(),
                        true,
                    ),
                    label: String::from_str("resolving trust role assignments"),
                    follow_up: AssignmentFollowUp::Trust(
                        crate::role::clone_opt_role_refs(&tpi.trust.roles),
                    ),
                },
            ),
            ScopeInfo::Unscoped => Ok(RoleStep::Done(Vec::new())),
        }
    }

    /// Continues after the role assignment query of a `ListAssignments`
    /// step answered: a failed query is a provider error under the step's
    /// label.
    pub fn on_assignments(self, answer: Result<Vec<Assignment>, String>) -> (res: Result<RoleStep, AuthenticationError>)
        requires
            self is ListAssignments,
        ensures
            match self {
                RoleStep::ListAssignments { label, follow_up, .. } => match answer {
                    Err(m) => res matches Err(e) && e@ == provider_error(m@, label@),
                    Ok(a) => match follow_up {
                        AssignmentFollowUp::ToRoles => finished(assignment_refs(assignment_views(a@)), res),
                        AssignmentFollowUp::AppCredential(r) => finished(
                            roles_with_ids(role_views(r@), assignment_role_ids(assignment_views(a@))),
                            res,
                        ),
                        AssignmentFollowUp::Trust(None) => finished(
                            assignment_refs(assignment_views(a@)),
                            res,
                        ),
                        AssignmentFollowUp::Trust(Some(tr)) => match res {
                            Ok(RoleStep::ExpandImplied { roles, label: l2, follow_up: ExpansionFollowUp::Trust(ids) }) => {
                                role_views(roles@) == role_views(tr@) && l2@
                                    == "expanding implied roles for trust"@ && strs(ids@)
                                    == assignment_role_ids(assignment_views(a@))
                            },
                            _ => false,
                        },
                    },
                },
                _ => true,
            },
    {
        match self {
            RoleStep::ListAssignments { label, follow_up, .. } => {
                let assignments = match answer {
                    Err(m) => {
                        return Err(AuthenticationError::Provider { message: m, context: Some(label) });
                    },
                    Ok(a) => a,
                };
                match follow_up {
                    AssignmentFollowUp::ToRoles => finish(assignments_to_roles(assignments)),
                    AssignmentFollowUp::AppCredential(roles) => {
                        let ids = assignment_role_id_list(&assignments);
                        finish(keep_roles_with_ids(&roles, &ids))
                    },
                    AssignmentFollowUp::Trust(None) => finish(assignments_to_roles(assignments)),
                    AssignmentFollowUp::Trust(Some(trust_roles)) => {
                        let ids = assignment_role_id_list(&assignments);
                        Ok(
                            RoleStep::ExpandImplied {
                                roles: trust_roles,
                                label: String::from_str("expanding implied roles for trust"),
                                follow_up: ExpansionFollowUp::Trust(ids),
                            },
                        )
                    },
                }
            },
            _ => Err(AuthenticationError::ActorHasNoRolesOnTarget),
        }
    }

    /// Continues after the implied role expansion of an `ExpandImplied`
    /// step answered with the expanded roles.
    pub fn on_expanded(self, answer: Result<Vec<RoleRef>, String>) -> (res: Result<RoleStep, AuthenticationError>)
        requires
            self is ExpandImplied,
        ensures
            match self {
                RoleStep::ExpandImplied { label, follow_up, .. } => match answer {
                    Err(m) => res matches Err(e) && e@ == provider_error(m@, label@),
                    Ok(r) => match follow_up {
                        ExpansionFollowUp::Plain => finished(role_views(r@), res),
                        ExpansionFollowUp::Trust(ids) => if forall|j: int|
                            0 <= j < r@.len() ==> strs(ids@).contains(#[trigger] r@[j].id@) {
                            finished(global_roles(role_views(r@)), res)
                        } else {
                            res matches Err(e) && e@ == AuthError::ActorHasNoRolesOnTarget
                        },
                    },
                },
                _ => true,
            },
    {
        match self {
            RoleStep::ExpandImplied { label, follow_up, .. } => {
                let roles = match answer {
                    Err(m) => {
                        return Err(AuthenticationError::Provider { message: m, context: Some(label) });
                    },
                    Ok(r) => r,
                };
                match follow_up {
                    ExpansionFollowUp::Plain => finish(roles),
                    ExpansionFollowUp::Trust(ids) => {
                        if !all_roles_in(&roles, &ids) {
                            return Err(AuthenticationError::ActorHasNoRolesOnTarget);
                        }
                        finish(keep_global_roles(roles))
                    },
                }
            },
            _ => Err(AuthenticationError::ActorHasNoRolesOnTarget),
        }
    }

    /// Continues after the role listing of a `ListRoles` step answered: the
    /// listed roles become the effective roles.
    pub fn on_roles(self, answer: Result<Vec<Role>, String>) -> (res: Result<RoleStep, AuthenticationError>)
        requires
            self is ListRoles,
        ensures
            match self {
                RoleStep::ListRoles { label, .. } => match answer {
                    Err(m) => res matches Err(e) && e@ == provider_error(m@, label@),
                    Ok(r) => finished(r@.map_values(|x: Role| role_ref_of(x)@), res),
                },
                _ => true,
            },
    {
        match self {
            RoleStep::ListRoles { label, .. } => {
                let roles = match answer {
                    Err(m) => {
                        return Err(AuthenticationError::Provider { message: m, context: Some(label) });
                    },
                    Ok(r) => r,
                };
                let mut refs: Vec<RoleRef> = Vec::new();
                let mut i: usize = 0;
                while i < roles.len()
                    invariant
                        i <= roles.len(),
                        role_views(refs@) == roles@.subrange(0, i as int).map_values(
                            |x: Role| role_ref_of(x)@,
                        ),
                    decreases roles.len() - i,
                {
                    let ghost before = role_views(refs@);
                    refs.push(RoleRef::from_role(&roles[i]));
                    assert(roles@.subrange(0, i + 1) =~= roles@.subrange(0, i as int).push(roles@[i as int]));
                    assert(role_views(refs@) =~= before.push(role_ref_of(roles@[i as int])@));
                    i += 1;
                    assert(role_views(refs@) =~= roles@.subrange(0, i as int).map_values(|x: Role| role_ref_of(x)@));
                }
                assert(roles@.subrange(0, i as int) =~= roles@);
                finish(refs)
            },
            _ => Err(AuthenticationError::ActorHasNoRolesOnTarget),
        }
    }
}

} // verus!
