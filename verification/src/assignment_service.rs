//! The assignment service's own decisions: role names in listings and the
//! revocation event that a revoked grant raises. Times are in seconds.
use vstd::prelude::*;
use crate::assignment::{
    assignment_views, Assignment, AssignmentType, AssignmentView, RoleAssignmentListParameters,
};
use crate::role::Role;

verus! {

/// The name of the last role in `roles` with the id `id`, if any.
pub open spec fn role_name_for(roles: Seq<Role>, id: Seq<char>) -> Option<Seq<char>>
    decreases roles.len(),
{
    if roles.len() == 0 {
        None
    } else if roles.last().id@ == id {
        Some(roles.last().name@)
    } else {
        role_name_for(roles.drop_last(), id)
    }
}

fn find_role_name(roles: &Vec<Role>, id: &String) -> (res: Option<String>)
    ensures
        crate::util::opt_str(res) == role_name_for(roles@, id@),
{
    let mut found: Option<String> = None;
    let mut i: usize = 0;
    while i < roles.len()
        invariant
            i <= roles@.len(),
            crate::util::opt_str(found) == role_name_for(roles@.subrange(0, i as int), id@),
        decreases roles@.len() - i,
    {
        assert(roles@.subrange(0, i + 1).drop_last() =~= roles@.subrange(0, i as int));
        assert(roles@.subrange(0, i + 1).last() == roles@[i as int]);
        if roles[i].id == *id {
            found = Some(roles[i].name.clone());
        }
        i += 1;
    }
    assert(roles@.subrange(0, roles@.len() as int) =~= roles@);
    found
}

/// Whether a listing must look up role names: it asked for names and found
/// assignments.
pub fn needs_role_names(assignments: &Vec<Assignment>, params: &RoleAssignmentListParameters) -> (res:
    bool)
    ensures
        res == (assignments@.len() > 0 && params.include_names == Some(true)),
{
    assignments.len() > 0 && params.include_names == Some(true)
}

/// An assignment with its role name set from the roles.
pub open spec fn named_assignment(a: AssignmentView, roles: Seq<Role>) -> AssignmentView {
    AssignmentView { role_name: role_name_for(roles, a.role_id), ..a }
}

/// Sets the role name of each assignment from the roles by id (the last
/// role with that id counts); without such a role the name is unset.
pub fn fill_role_names(assignments: Vec<Assignment>, roles: &Vec<Role>) -> (res: Vec<Assignment>)
    ensures
        res@.len() == assignments@.len(),
        forall|i: int|
            0 <= i < res@.len() ==> (#[trigger] res@[i])@ == named_assignment(
                assignments@[i]@,
                roles@,
            ),
{
    let mut res: Vec<Assignment> = Vec::new();
    let mut rest = assignments;
    let ghost all = rest@;
    let n = rest.len();
    assert(all.len() == n);
    let mut i: usize = 0;
    while rest.len() > 0
        invariant
            i + rest@.len() == all.len(),
            all.len() <= usize::MAX,
            rest@ == all.subrange(i as int, all.len() as int),
            res@.len() == i,
            forall|k: int| 0 <= k < i ==> (#[trigger] res@[k])@ == named_assignment(all[k]@, roles@),
        decreases rest@.len(),
    {
        let mut a = rest.remove(0);
        assert(a == all[i as int]);
        a.role_name = find_role_name(roles, &a.role_id);
        res.push(a);
        i += 1;
        assert(rest@ =~= all.subrange(i as int, all.len() as int));
    }
    res
}

/// The assignments a listing returns: with role names when they were asked
/// for and there are assignments, else as they are.
pub fn with_role_names(
    params: &RoleAssignmentListParameters,
    assignments: Vec<Assignment>,
    roles: &Vec<Role>,
) -> (res: Vec<Assignment>)
    ensures
        assignments@.len() > 0 && params.include_names == Some(true) ==> (res@.len()
            == assignments@.len() && forall|i: int|
            0 <= i < res@.len() ==> (#[trigger] res@[i])@ == named_assignment(
                assignments@[i]@,
                roles@,
            )),
        !(assignments@.len() > 0 && params.include_names == Some(true)) ==> res == assignments,
{
    if needs_role_names(&assignments, params) {
        fill_role_names(assignments, roles)
    } else {
        assignments
    }
}

/// A revocation event to create.
pub struct RevocationEventCreate {
    pub domain_id: Option<String>,
    pub project_id: Option<String>,
    pub user_id: Option<String>,
    pub role_id: Option<String>,
    pub trust_id: Option<String>,
    pub consumer_id: Option<String>,
    pub access_token_id: Option<String>,
    /// Tokens issued before this time are revoked.
    pub issued_before: i64,
    pub expires_at: Option<i64>,
    pub audit_id: Option<String>,
    pub audit_chain_id: Option<String>,
    /// When the revocation happened.
    pub revoked_at: i64,
}

/// Whether an assignment type has a user as its actor.
pub open spec fn user_actor(t: AssignmentType) -> bool {
    t == AssignmentType::UserDomain || t == AssignmentType::UserProject || t
        == AssignmentType::UserSystem
}

/// Whether `res` is the revocation event raised when `grant` is revoked at
/// `now`: the user (for a user grant), the project or domain of the grant,
/// and its role.
pub open spec fn revocation_event(grant: Assignment, now: i64, res: RevocationEventCreate) -> bool {
    &&& crate::util::opt_str(res.user_id) == (if user_actor(grant.assignment_type) {
        Some(grant.actor_id@)
    } else {
        None
    })
    &&& crate::util::opt_str(res.project_id) == (if grant.assignment_type
        == AssignmentType::UserProject || grant.assignment_type == AssignmentType::GroupProject {
        Some(grant.target_id@)
    } else {
        None
    })
    &&& crate::util::opt_str(res.domain_id) == (if grant.assignment_type
        == AssignmentType::UserDomain || grant.assignment_type == AssignmentType::GroupDomain {
        Some(grant.target_id@)
    } else {
        None
    })
    &&& crate::util::opt_str(res.role_id) == Some(grant.role_id@)
    &&& res.trust_id is None && res.consumer_id is None && res.access_token_id is None
    &&& res.expires_at is None && res.audit_id is None && res.audit_chain_id is None
    &&& res.issued_before == now && res.revoked_at == now
}

/// The revocation event raised when `grant` is revoked at `now`: the user
/// (for a user grant), the project or domain of the grant, and its role.
pub fn revocation_event_for(grant: &Assignment, now: i64) -> (res: RevocationEventCreate)
    ensures
        revocation_event(*grant, now, res),
{
    let user_id = match grant.assignment_type {
        AssignmentType::UserDomain | AssignmentType::UserProject | AssignmentType::UserSystem => Some(
            grant.actor_id.clone(),
        ),
        AssignmentType::GroupDomain | AssignmentType::GroupProject | AssignmentType::GroupSystem => None,
    };
    let (project_id, domain_id) = match grant.assignment_type {
        AssignmentType::UserProject | AssignmentType::GroupProject => (
            Some(grant.target_id.clone()),
            None,
        ),
        AssignmentType::UserDomain | AssignmentType::GroupDomain => (
            None,
            Some(grant.target_id.clone()),
        ),
        AssignmentType::UserSystem | AssignmentType::GroupSystem => (None, None),
    };
    RevocationEventCreate {
        domain_id,
        project_id,
        user_id,
        role_id: Some(grant.role_id.clone()),
        trust_id: None,
        consumer_id: None,
        access_token_id: None,
        issued_before: now,
        expires_at: None,
        audit_id: None,
        audit_chain_id: None,
        revoked_at: now,
    }
}

/// The revocation event of a revoked grant names exactly what the grant
/// gave: the user for a grant to a user (on a domain, a project or the
/// system), no user for a grant to a group; the project of a project grant,
/// the domain of a domain grant, neither for a system grant; and always the
/// grant's role. So it revokes the tokens of that user, or of every holder
/// for a group, carrying that role on that target.
pub proof fn lemma_revocation_names_the_grant(grant: Assignment, now: i64, res: RevocationEventCreate)
    requires
        revocation_event(grant, now, res),
    ensures
        grant.assignment_type == AssignmentType::UserDomain || grant.assignment_type
            == AssignmentType::UserProject || grant.assignment_type == AssignmentType::UserSystem
            ==> (res.user_id matches Some(u) && u@ == grant.actor_id@),
        grant.assignment_type == AssignmentType::GroupDomain || grant.assignment_type
            == AssignmentType::GroupProject || grant.assignment_type
            == AssignmentType::GroupSystem ==> res.user_id is None,
        grant.assignment_type == AssignmentType::UserDomain || grant.assignment_type
            == AssignmentType::GroupDomain ==> (res.domain_id matches Some(d) && d@ == grant.target_id@
            && res.project_id is None),
        grant.assignment_type == AssignmentType::UserProject || grant.assignment_type
            == AssignmentType::GroupProject ==> (res.project_id matches Some(p) && p@
            == grant.target_id@ && res.domain_id is None),
        grant.assignment_type == AssignmentType::UserSystem || grant.assignment_type
            == AssignmentType::GroupSystem ==> res.project_id is None && res.domain_id is None,
        res.role_id matches Some(r) && r@ == grant.role_id@,
        res.issued_before == now && res.revoked_at == now,
{
}

/// The role name set on a listed assignment is the name of a role with the
/// assignment's role ID, when there is one, and unset otherwise; nothing
/// else of the assignment changes.
pub proof fn lemma_named_assignment(a: AssignmentView, roles: Seq<Role>)
    ensures
        ({
            let n = named_assignment(a, roles);
            &&& n.actor_id == a.actor_id && n.role_id == a.role_id && n.target_id == a.target_id
            &&& n.assignment_type == a.assignment_type && n.inherited == a.inherited
            &&& n.implied_via == a.implied_via
            &&& (n.role_name matches Some(name) ==> exists|i: int|
                0 <= i < roles.len() && roles[i].id@ == a.role_id && roles[i].name@ == name)
            &&& (n.role_name is None ==> forall|i: int| 0 <= i < roles.len() ==> roles[i].id@ != a.role_id)
        }),
{
    lemma_role_name_for(roles, a.role_id);
}

proof fn lemma_role_name_for(roles: Seq<Role>, id: Seq<char>)
    ensures
        role_name_for(roles, id) matches Some(name) ==> exists|i: int|
            0 <= i < roles.len() && roles[i].id@ == id && roles[i].name@ == name,
        role_name_for(roles, id) is None ==> forall|i: int| 0 <= i < roles.len() ==> roles[i].id@ != id,
    decreases roles.len(),
{
    if roles.len() > 0 {
        lemma_role_name_for(roles.drop_last(), id);
        if roles.last().id@ == id {
            assert(roles[roles.len() - 1] == roles.last());
        } else {
            if let Some(name) = role_name_for(roles, id) {
                let i = choose|i: int|
                    0 <= i < roles.drop_last().len() && roles.drop_last()[i].id@ == id
                        && roles.drop_last()[i].name@ == name;
                assert(roles[i] == roles.drop_last()[i]);
            } else {
                assert forall|i: int| 0 <= i < roles.len() implies roles[i].id@ != id by {
                    if i < roles.len() - 1 {
                        assert(roles[i] == roles.drop_last()[i]);
                    }
                }
            }
        }
    }
}

} // verus!
