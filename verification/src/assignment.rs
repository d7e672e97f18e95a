//! Role assignments: an actor (user or group) holds a role on a target
//! (project, domain or system).
use vstd::prelude::*;
use crate::role::{RoleRef, RoleRefView};
use crate::util::{clone_opt_string, opt_str};

verus! {

/// Role assignment type.
#[derive(PartialEq, Eq, Structural, Clone, Copy, Debug)]
pub enum AssignmentType {
    /// Group to the domain.
    GroupDomain,
    /// Group to the project.
    GroupProject,
    /// User to the domain.
    UserDomain,
    /// User to the project.
    UserProject,
    /// User to the system.
    UserSystem,
    /// Group to the system.
    GroupSystem,
}

/// The display name of an assignment type.
pub open spec fn assignment_type_name(t: AssignmentType) -> Seq<char> {
    match t {
        AssignmentType::GroupDomain => "GroupDomain"@,
        AssignmentType::GroupProject => "GroupProject"@,
        AssignmentType::GroupSystem => "GroupSystem"@,
        AssignmentType::UserDomain => "UserDomain"@,
        AssignmentType::UserProject => "UserProject"@,
        AssignmentType::UserSystem => "UserSystem"@,
    }
}

impl AssignmentType {
    /// The display name of the assignment type.
    pub fn to_string(&self) -> (res: String)
        ensures
            res@ == assignment_type_name(*self),
    {
        match self {
            AssignmentType::GroupDomain => String::from_str("GroupDomain"),
            AssignmentType::GroupProject => String::from_str("GroupProject"),
            AssignmentType::GroupSystem => String::from_str("GroupSystem"),
            AssignmentType::UserDomain => String::from_str("UserDomain"),
            AssignmentType::UserProject => String::from_str("UserProject"),
            AssignmentType::UserSystem => String::from_str("UserSystem"),
        }
    }
}

/// The assignment object.
pub struct Assignment {
    /// The actor id.
    pub actor_id: String,
    /// The role ID.
    pub role_id: String,
    /// The role name.
    pub role_name: Option<String>,
    /// The target id.
    pub target_id: String,
    /// The assignment type.
    pub assignment_type: AssignmentType,
    /// Inherited flag.
    pub inherited: bool,
    /// The role through which this assignment was implied, if any.
    pub implied_via: Option<String>,
}

/// The content of an [`Assignment`].
pub struct AssignmentView {
    pub actor_id: Seq<char>,
    pub role_id: Seq<char>,
    pub role_name: Option<Seq<char>>,
    pub target_id: Seq<char>,
    pub assignment_type: AssignmentType,
    pub inherited: bool,
    pub implied_via: Option<Seq<char>>,
}

impl View for Assignment {
    type V = AssignmentView;

    open spec fn view(&self) -> AssignmentView {
        AssignmentView {
            actor_id: self.actor_id@,
            role_id: self.role_id@,
            role_name: opt_str(self.role_name),
            target_id: self.target_id@,
            assignment_type: self.assignment_type,
            inherited: self.inherited,
            implied_via: opt_str(self.implied_via),
        }
    }
}

/// The views of a sequence of assignments.
pub open spec fn assignment_views(v: Seq<Assignment>) -> Seq<AssignmentView> {
    v.map_values(|a: Assignment| a@)
}

impl Clone for Assignment {
    fn clone(&self) -> (res: Self)
        ensures
            res == *self,
    {
        Assignment {
            actor_id: self.actor_id.clone(),
            role_id: self.role_id.clone(),
            role_name: clone_opt_string(&self.role_name),
            target_id: self.target_id.clone(),
            assignment_type: self.assignment_type,
            inherited: self.inherited,
            implied_via: clone_opt_string(&self.implied_via),
        }
    }
}

/// The role reference an assignment converts to: its role id and name.
pub open spec fn assignment_role_ref(a: AssignmentView) -> RoleRefView {
    RoleRefView { domain_id: None, id: a.role_id, name: a.role_name }
}

impl Assignment {
    /// Compares two assignments by content.
    pub fn same_as(&self, other: &Assignment) -> (res: bool)
        ensures
            res == (self@ == other@),
    {
        self.actor_id == other.actor_id && self.role_id == other.role_id
            && crate::util::opt_string_eq(&self.role_name, &other.role_name) && self.target_id
            == other.target_id && self.assignment_type == other.assignment_type && self.inherited == other.inherited
            && crate::util::opt_string_eq(&self.implied_via, &other.implied_via)
    }

    /// Converts the assignment into the reference of its role (id and name).
    pub fn into_role_ref(self) -> (res: RoleRef)
        ensures
            res@ == assignment_role_ref(self@),
    {
        RoleRef { id: self.role_id, name: self.role_name, domain_id: None }
    }
}

/// The new assignment object.
pub struct AssignmentCreate {
    /// The actor id.
    pub actor_id: String,
    /// The role ID.
    pub role_id: String,
    /// The role name.
    pub role_name: Option<String>,
    /// The target id.
    pub target_id: String,
    /// The assignment type.
    pub assignment_type: AssignmentType,
    /// Inherited flag.
    pub inherited: bool,
}

impl AssignmentCreate {
    /// Instantiate new assignment.
    pub fn new(
        actor_id: String,
        target_id: String,
        role_id: String,
        assignment_type: AssignmentType,
        inherited: bool,
    ) -> (res: Self)
        ensures
            res == (AssignmentCreate {
                actor_id,
                target_id,
                role_id,
                assignment_type,
                inherited,
                role_name: None,
            }),
    {
        AssignmentCreate { actor_id, target_id, role_id, assignment_type, inherited, role_name: None }
    }

    /// Instantiate GroupDomain assignment.
    pub fn group_domain(
        actor_id: String,
        target_id: String,
        role_id: String,
        inherited: bool,
    ) -> (res: Self)
        ensures
            res == (AssignmentCreate {
                actor_id,
                target_id,
                role_id,
                assignment_type: AssignmentType::GroupDomain,
                inherited,
                role_name: None,
            }),
    {
        Self::new(actor_id, target_id, role_id, AssignmentType::GroupDomain, inherited)
    }

    /// Instantiate GroupProject assignment.
    pub fn group_project(
        actor_id: String,
        target_id: String,
        role_id: String,
        inherited: bool,
    ) -> (res: Self)
        ensures
            res == (AssignmentCreate {
                actor_id,
                target_id,
                role_id,
                assignment_type: AssignmentType::GroupProject,
                inherited,
                role_name: None,
            }),
    {
        Self::new(actor_id, target_id, role_id, AssignmentType::GroupProject, inherited)
    }

    /// Instantiate UserDomain assignment.
    pub fn user_domain(
        actor_id: String,
        target_id: String,
        role_id: String,
        inherited: bool,
    ) -> (res: Self)
        ensures
            res == (AssignmentCreate {
                actor_id,
                target_id,
                role_id,
                assignment_type: AssignmentType::UserDomain,
                inherited,
                role_name: None,
            }),
    {
        Self::new(actor_id, target_id, role_id, AssignmentType::UserDomain, inherited)
    }

    /// Instantiate UserProject assignment.
    pub fn user_project(
        actor_id: String,
        target_id: String,
        role_id: String,
        inherited: bool,
    ) -> (res: Self)
        ensures
            res == (AssignmentCreate {
                actor_id,
                target_id,
                role_id,
                assignment_type: AssignmentType::UserProject,
                inherited,
                role_name: None,
            }),
    {
        Self::new(actor_id, target_id, role_id, AssignmentType::UserProject, inherited)
    }
}

/// Parameters for listing role assignments for role/target/actor.
pub struct RoleAssignmentListParameters {
    /// Filter by the role.
    pub role_id: Option<String>,
    /// Assignments of the user.
    pub user_id: Option<String>,
    /// Assignments of the group.
    pub group_id: Option<String>,
    /// Assignments on the domain.
    pub domain_id: Option<String>,
    /// Assignments on the project.
    pub project_id: Option<String>,
    /// Assignments on the system.
    pub system_id: Option<String>,
    /// Query the effective assignments, including those gained by group
    /// membership.
    pub effective: Option<bool>,
    /// Include the names of the entities.
    pub include_names: Option<bool>,
    /// Resolve implied roles.
    pub resolve_implied_roles: bool,
}

impl RoleAssignmentListParameters {
    /// Parameters with no filter set.
    pub fn empty() -> (res: Self)
        ensures
            res.role_id is None && res.user_id is None && res.group_id is None
                && res.domain_id is None && res.project_id is None && res.system_id is None
                && res.effective is None && res.include_names is None
                && !res.resolve_implied_roles,
    {
        RoleAssignmentListParameters {
            role_id: None,
            user_id: None,
            group_id: None,
            domain_id: None,
            project_id: None,
            system_id: None,
            effective: None,
            include_names: None,
            resolve_implied_roles: false,
        }
    }
}

/// Role assignment target as Project(id), Domain(id) or System(id).
#[derive(PartialEq, Eq, Structural, Clone, Copy, Debug)]
pub enum RoleAssignmentTargetType {
    /// Project ID.
    Project,
    /// Domain ID.
    Domain,
    /// System ID.
    System,
}

/// Role assignment target: a target id with an optional inherited flag.
pub struct RoleAssignmentTarget {
    /// The role assignment target ID.
    pub id: String,
    /// The role assignment target type.
    pub target_type: RoleAssignmentTargetType,
    /// Whether the target is only considered for inherited assignments.
    pub inherited: Option<bool>,
}

/// Querying effective role assignments for list of actors on list of
/// targets.
pub struct RoleAssignmentListForMultipleActorTargetParameters {
    /// Actors for which assignments are looked up.
    pub actors: Vec<String>,
    /// Optionally filter for the concrete role ID.
    pub role_id: Option<String>,
    /// Targets for which assignments are looked up.
    pub targets: Vec<RoleAssignmentTarget>,
    /// Resolve implied roles.
    pub resolve_implied_roles: bool,
}

} // verus!
