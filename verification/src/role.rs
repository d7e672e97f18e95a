//! Roles, role references and role inference rules.
use vstd::prelude::*;
use crate::util::{clone_opt_string, opt_str};

verus! {

/// Short role representation (reference).
pub struct RoleRef {
    /// The role domain_id.
    pub domain_id: Option<String>,
    /// The role ID.
    pub id: String,
    /// The role name.
    pub name: Option<String>,
}

/// The content of a [`RoleRef`].
pub struct RoleRefView {
    pub domain_id: Option<Seq<char>>,
    pub id: Seq<char>,
    pub name: Option<Seq<char>>,
}

impl View for RoleRef {
    type V = RoleRefView;

    open spec fn view(&self) -> RoleRefView {
        RoleRefView { domain_id: opt_str(self.domain_id), id: self.id@, name: opt_str(self.name) }
    }
}

/// The views of a sequence of role references.
pub open spec fn role_views(v: Seq<RoleRef>) -> Seq<RoleRefView> {
    v.map_values(|r: RoleRef| r@)
}

/// The view of an optional vector of role references.
pub open spec fn opt_role_views(o: Option<Vec<RoleRef>>) -> Option<Seq<RoleRefView>> {
    match o {
        Some(v) => Some(role_views(v@)),
        None => None,
    }
}

impl Clone for RoleRef {
    fn clone(&self) -> (res: Self)
        ensures
            res == *self,
    {
        RoleRef {
            domain_id: clone_opt_string(&self.domain_id),
            id: self.id.clone(),
            name: clone_opt_string(&self.name),
        }
    }
}

/// Copies a list of role references.
pub fn clone_role_refs(v: &Vec<RoleRef>) -> (res: Vec<RoleRef>)
    ensures
        res@ == v@,
        role_views(res@) == role_views(v@),
{
    let res = v.clone();
    assert(res@ =~= v@);
    res
}

/// Copies an optional list of role references.
pub fn clone_opt_role_refs(v: &Option<Vec<RoleRef>>) -> (res: Option<Vec<RoleRef>>)
    ensures
        opt_role_views(res) == opt_role_views(*v),
{
    match v {
        Some(x) => Some(clone_role_refs(x)),
        None => None,
    }
}

/// Role representation.
pub struct Role {
    /// The role description.
    pub description: Option<String>,
    /// The role domain_id.
    pub domain_id: Option<String>,
    /// The role ID.
    pub id: String,
    /// The role name.
    pub name: String,
}

impl Clone for Role {
    fn clone(&self) -> (res: Self)
        ensures
            res == *self,
    {
        Role {
            description: clone_opt_string(&self.description),
            domain_id: clone_opt_string(&self.domain_id),
            id: self.id.clone(),
            name: self.name.clone(),
        }
    }
}

/// The reference that a role converts to: its id, name and domain.
pub open spec fn role_ref_of(role: Role) -> RoleRef {
    RoleRef { id: role.id, name: Some(role.name), domain_id: role.domain_id }
}

impl From<Role> for RoleRef {
    fn from(value: Role) -> (res: RoleRef) {
        RoleRef { id: value.id, name: Some(value.name), domain_id: value.domain_id }
    }
}

impl vstd::std_specs::convert::FromSpecImpl<Role> for RoleRef {
    open spec fn obeys_from_spec() -> bool {
        true
    }

    open spec fn from_spec(v: Role) -> RoleRef {
        role_ref_of(v)
    }
}

impl RoleRef {
    /// Builds the reference of a borrowed role.
    pub fn from_role(value: &Role) -> (res: RoleRef)
        ensures
            res == role_ref_of(*value),
    {
        RoleRef {
            id: value.id.clone(),
            name: Some(value.name.clone()),
            domain_id: clone_opt_string(&value.domain_id),
        }
    }
}

/// Query parameters for listing roles.
pub struct RoleListParameters {
    /// Filter roles by the domain; `Some(None)` lists only global roles.
    pub domain_id: Option<Option<String>>,
    /// Filter roles by the name attribute.
    pub name: Option<String>,
}

/// Role creation data.
pub struct RoleCreate {
    /// The role description.
    pub description: Option<String>,
    /// The role domain_id.
    pub domain_id: Option<String>,
    /// The role ID.
    pub id: Option<String>,
    /// The role name.
    pub name: String,
}

/// Role inference (imply) data.
pub struct RoleImply {
    /// The prior role that implies another role.
    pub prior_role: RoleRef,
    /// The role that is implied by the prior role.
    pub implied_role: RoleRef,
}

} // verus!

verus! {

impl RoleRef {
    /// Compares two role references by content.
    pub fn same_as(&self, other: &RoleRef) -> (res: bool)
        ensures
            res == (self@ == other@),
    {
        crate::util::opt_string_eq(&self.domain_id, &other.domain_id) && self.id == other.id
            && crate::util::opt_string_eq(&self.name, &other.name)
    }
}

/// Compares two lists of role references by content.
pub fn role_refs_eq(a: &Vec<RoleRef>, b: &Vec<RoleRef>) -> (res: bool)
    ensures
        res == (role_views(a@) == role_views(b@)),
{
    if a.len() != b.len() {
        assert(role_views(a@).len() != role_views(b@).len());
        return false;
    }
    let mut i: usize = 0;
    while i < a.len()
        invariant
            a.len() == b.len(),
            i <= a.len(),
            forall|j: int| 0 <= j < i ==> a@[j]@ == b@[j]@,
        decreases a.len() - i,
    {
        if !a[i].same_as(&b[i]) {
            assert(role_views(a@)[i as int] != role_views(b@)[i as int]);
            return false;
        }
        i += 1;
    }
    assert(role_views(a@) =~= role_views(b@));
    true
}

/// Compares two optional lists of role references by content.
pub fn opt_role_refs_eq(a: &Option<Vec<RoleRef>>, b: &Option<Vec<RoleRef>>) -> (res: bool)
    ensures
        res == (opt_role_views(*a) == opt_role_views(*b)),
{
    match (a, b) {
        (Some(x), Some(y)) => role_refs_eq(x, y),
        (None, None) => true,
        _ => false,
    }
}

} // verus!
