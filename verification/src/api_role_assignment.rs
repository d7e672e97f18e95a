//! Role assignment API types and their conversions from and to the provider
//! types.
use vstd::prelude::*;
use crate::assignment as provider;
use crate::assignment::AssignmentType;

verus! {

/// Errors of the API conversions.
#[derive(Debug)]
pub enum KeystoneApiError {
    /// A structure could not be built: the missing field.
    StructBuilder(String),
}

/// A role in an assignment.
pub struct Role {
    pub id: String,
    pub name: Option<String>,
}

/// A user in an assignment.
pub struct User {
    pub id: String,
}

/// A group in an assignment.
pub struct Group {
    pub id: String,
}

/// A project scope.
pub struct Project {
    pub id: String,
}

/// A domain scope.
pub struct Domain {
    pub id: String,
}

/// The system scope.
pub struct System {
    pub id: String,
}

/// The scope of an assignment.
pub enum Scope {
    Project(Project),
    Domain(Domain),
    System(System),
}

/// A role assignment, as the API shows it.
pub struct Assignment {
    pub role: Role,
    pub user: Option<User>,
    pub group: Option<Group>,
    pub scope: Scope,
}

/// Whether an assignment type has a group as its actor.
pub open spec fn group_actor(t: AssignmentType) -> bool {
    t == AssignmentType::GroupDomain || t == AssignmentType::GroupProject || t
        == AssignmentType::GroupSystem
}

/// The API assignment a provider assignment converts to: its role; its
/// actor as a user or a group; its target as a project, domain or system
/// scope.
pub open spec fn api_assignment_of(a: provider::Assignment) -> Assignment {
    Assignment {
        role: Role { id: a.role_id, name: a.role_name },
        user: if group_actor(a.assignment_type) {
            None
        } else {
            Some(User { id: a.actor_id })
        },
        group: if group_actor(a.assignment_type) {
            Some(Group { id: a.actor_id })
        } else {
            None
        },
        scope: match a.assignment_type {
            AssignmentType::GroupDomain | AssignmentType::UserDomain => Scope::Domain(
                Domain { id: a.target_id },
            ),
            AssignmentType::GroupProject | AssignmentType::UserProject => Scope::Project(
                Project { id: a.target_id },
            ),
            AssignmentType::GroupSystem | AssignmentType::UserSystem => Scope::System(
                System { id: a.target_id },
            ),
        },
    }
}

impl Assignment {
    /// Converts a provider assignment; this never fails.
    pub fn try_from_assignment(value: provider::Assignment) -> (res: Result<
        Assignment,
        KeystoneApiError,
    >)
        ensures
            res == Ok::<Assignment, KeystoneApiError>(api_assignment_of(value)),
    {
        let role = Role { id: value.role_id, name: value.role_name };
        let actor = value.actor_id;
        let target = value.target_id;
        let res = match value.assignment_type {
            AssignmentType::GroupDomain => Assignment {
                role,
                user: None,
                group: Some(Group { id: actor }),
                scope: Scope::Domain(Domain { id: target }),
            },
            AssignmentType::GroupProject => Assignment {
                role,
                user: None,
                group: Some(Group { id: actor }),
                scope: Scope::Project(Project { id: target }),
            },
            AssignmentType::UserDomain => Assignment {
                role,
                user: Some(User { id: actor }),
                group: None,
                scope: Scope::Domain(Domain { id: target }),
            },
            AssignmentType::UserProject => Assignment {
                role,
                user: Some(User { id: actor }),
                group: None,
                scope: Scope::Project(Project { id: target }),
            },
            AssignmentType::UserSystem => Assignment {
                role,
                user: Some(User { id: actor }),
                group: None,
                scope: Scope::System(System { id: target }),
            },
            AssignmentType::GroupSystem => Assignment {
                role,
                user: None,
                group: Some(Group { id: actor }),
                scope: Scope::System(System { id: target }),
            },
        };
        Ok(res)
    }
}

impl Role {
    /// The role of a provider assignment; this never fails.
    pub fn try_from_assignment(value: provider::Assignment) -> (res: Result<Role, KeystoneApiError>)
        ensures
            res == Ok::<Role, KeystoneApiError>(Role { id: value.role_id, name: value.role_name }),
    {
        Ok(Role { id: value.role_id, name: value.role_name })
    }
}

/// Role assignment listing parameters, as the API takes them.
pub struct RoleAssignmentListParameters {
    pub role_id: Option<String>,
    pub user_id: Option<String>,
    pub group_id: Option<String>,
    pub project_id: Option<String>,
    pub domain_id: Option<String>,
    pub effective: Option<bool>,
    pub include_names: Option<bool>,
}

/// The provider listing parameters for the API ones: the user before the
/// group, the project before the domain, and implied roles always
/// resolved.
pub open spec fn provider_list_parameters(p: RoleAssignmentListParameters) -> provider::RoleAssignmentListParameters {
    provider::RoleAssignmentListParameters {
        role_id: p.role_id,
        user_id: p.user_id,
        group_id: if p.user_id is Some {
            None
        } else {
            p.group_id
        },
        project_id: p.project_id,
        domain_id: if p.project_id is Some {
            None
        } else {
            p.domain_id
        },
        system_id: None,
        effective: p.effective,
        include_names: p.include_names,
        resolve_implied_roles: true,
    }
}

impl RoleAssignmentListParameters {
    /// Converts the parameters for the provider; this never fails.
    pub fn try_into_provider(self) -> (res: Result<
        provider::RoleAssignmentListParameters,
        KeystoneApiError,
    >)
        ensures
            res == Ok::<provider::RoleAssignmentListParameters, KeystoneApiError>(
                provider_list_parameters(self),
            ),
    {
        let user_id = self.user_id;
        let group_id = if user_id.is_some() {
            None
        } else {
            self.group_id
        };
        let project_id = self.project_id;
        let domain_id = if project_id.is_some() {
            None
        } else {
            self.domain_id
        };
        Ok(
            provider::RoleAssignmentListParameters {
                role_id: self.role_id,
                user_id,
                group_id,
                project_id,
                domain_id,
                system_id: None,
                effective: self.effective,
                include_names: self.include_names,
                resolve_implied_roles: true,
            },
        )
    }
}

/// A converted assignment keeps what the provider assignment says: its
/// scope is a system, a project or a domain exactly when the assignment is
/// on a system, a project or a domain, and names the assignment's target;
/// the actor is a user exactly for user assignments and a group exactly for
/// group assignments, named by the assignment's actor; the role is kept.
pub proof fn lemma_conversion_keeps_kinds(a: provider::Assignment)
    ensures
        ({
            let res = api_assignment_of(a);
            let t = a.assignment_type;
            &&& (res.scope is System <==> (t == AssignmentType::UserSystem || t
                == AssignmentType::GroupSystem))
            &&& (res.scope is Project <==> (t == AssignmentType::UserProject || t
                == AssignmentType::GroupProject))
            &&& (res.scope is Domain <==> (t == AssignmentType::UserDomain || t
                == AssignmentType::GroupDomain))
            &&& (match res.scope {
                Scope::System(x) => x.id == a.target_id,
                Scope::Project(x) => x.id == a.target_id,
                Scope::Domain(x) => x.id == a.target_id,
            })
            &&& (res.user is Some <==> (t == AssignmentType::UserSystem || t
                == AssignmentType::UserProject || t == AssignmentType::UserDomain))
            &&& (res.group is Some <==> (t == AssignmentType::GroupSystem || t
                == AssignmentType::GroupProject || t == AssignmentType::GroupDomain))
            &&& (res.user matches Some(u) ==> u.id == a.actor_id)
            &&& (res.group matches Some(g) ==> g.id == a.actor_id)
            &&& res.role.id == a.role_id && res.role.name == a.role_name
        }),
{
}

/// The provider listing parameters keep the API filters: the role, the
/// user (else the group), the project (else the domain), the effective and
/// include-names flags; no system target; implied roles always resolved.
pub proof fn lemma_list_parameters_keep_filters(p: RoleAssignmentListParameters)
    ensures
        ({
            let q = provider_list_parameters(p);
            &&& q.role_id == p.role_id
            &&& q.user_id == p.user_id
            &&& (p.user_id is None ==> q.group_id == p.group_id)
            &&& (p.user_id is Some ==> q.group_id is None)
            &&& q.project_id == p.project_id
            &&& (p.project_id is None ==> q.domain_id == p.domain_id)
            &&& (p.project_id is Some ==> q.domain_id is None)
            &&& q.system_id is None
            &&& q.effective == p.effective
            &&& q.include_names == p.include_names
            &&& q.resolve_implied_roles
        }),
{
}

} // verus!
