//! SPIFFE bindings: fixed binds between a SPIFFE identity and a user and
//! scopes.
use vstd::prelude::*;
use crate::role::{RoleRef, RoleRefView, opt_role_views};
use crate::util::{clone_opt_string, opt_str, opt_strs, strs};

verus! {

/// Authorization information of a binding.
pub enum SpiffeAuthorization {
    /// Domain scope.
    Domain {
        /// Domain ID.
        domain_id: String,
        /// Roles to limit the authorization to.
        role_ids: Option<Vec<String>>,
    },
    /// Project scope.
    Project {
        /// Project ID.
        project_id: String,
        /// Roles to limit the authorization to.
        role_ids: Option<Vec<String>>,
    },
    /// System authorization.
    System {
        /// System ID.
        system_id: String,
        /// Roles to limit the authorization to.
        role_ids: Option<Vec<String>>,
    },
}

/// The role IDs an authorization carries, whatever its scope.
pub open spec fn authorization_role_ids(a: SpiffeAuthorization) -> Option<Vec<String>> {
    match a {
        SpiffeAuthorization::Domain { role_ids, .. } => role_ids,
        SpiffeAuthorization::Project { role_ids, .. } => role_ids,
        SpiffeAuthorization::System { role_ids, .. } => role_ids,
    }
}

/// Bare role references (no name, no domain) for a list of role IDs.
pub open spec fn refs_for_ids(ids: Seq<Seq<char>>) -> Seq<RoleRefView> {
    ids.map_values(|id: Seq<char>| RoleRefView { domain_id: None, id: id, name: None })
}

/// Builds bare role references for a list of role IDs.
pub fn role_refs_for_ids(ids: &Vec<String>) -> (res: Vec<RoleRef>)
    ensures
        res@.map_values(|r: RoleRef| r@) == refs_for_ids(strs(ids@)),
{
    let mut res: Vec<RoleRef> = Vec::new();
    let mut i: usize = 0;
    while i < ids.len()
        invariant
            i <= ids.len(),
            res@.len() == i,
            forall|j: int|
                0 <= j < i ==> #[trigger] res@[j]@ == (RoleRefView {
                    domain_id: None,
                    id: ids@[j]@,
                    name: None,
                }),
        decreases ids.len() - i,
    {
        res.push(RoleRef { id: ids[i].clone(), name: None, domain_id: None });
        i += 1;
    }
    assert(res@.map_values(|r: RoleRef| r@) =~= refs_for_ids(strs(ids@)));
    res
}

impl SpiffeAuthorization {
    /// Return the role ids bound by the authorization as role references.
    pub fn role_refs(&self) -> (res: Option<Vec<RoleRef>>)
        ensures
            opt_role_views(res) == match authorization_role_ids(*self) {
                Some(ids) => Some(refs_for_ids(strs(ids@))),
                None => None,
            },
    {
        let ids = match self {
            SpiffeAuthorization::Domain { role_ids, .. } => role_ids,
            SpiffeAuthorization::Project { role_ids, .. } => role_ids,
            SpiffeAuthorization::System { role_ids, .. } => role_ids,
        };
        match ids {
            Some(rids) => Some(role_refs_for_ids(rids)),
            None => None,
        }
    }
}

/// The content of a [`SpiffeAuthorization`].
pub enum SpiffeAuthorizationView {
    Domain { domain_id: Seq<char>, role_ids: Option<Seq<Seq<char>>> },
    Project { project_id: Seq<char>, role_ids: Option<Seq<Seq<char>>> },
    System { system_id: Seq<char>, role_ids: Option<Seq<Seq<char>>> },
}

impl View for SpiffeAuthorization {
    type V = SpiffeAuthorizationView;

    open spec fn view(&self) -> SpiffeAuthorizationView {
        match self {
            SpiffeAuthorization::Domain { domain_id, role_ids } => SpiffeAuthorizationView::Domain {
                domain_id: domain_id@,
                role_ids: opt_strs(*role_ids),
            },
            SpiffeAuthorization::Project { project_id, role_ids } => SpiffeAuthorizationView::Project {
                project_id: project_id@,
                role_ids: opt_strs(*role_ids),
            },
            SpiffeAuthorization::System { system_id, role_ids } => SpiffeAuthorizationView::System {
                system_id: system_id@,
                role_ids: opt_strs(*role_ids),
            },
        }
    }
}

/// The views of an optional list of authorizations.
pub open spec fn opt_authorization_views(o: Option<Vec<SpiffeAuthorization>>) -> Option<
    Seq<SpiffeAuthorizationView>,
> {
    match o {
        Some(v) => Some(v@.map_values(|a: SpiffeAuthorization| a@)),
        None => None,
    }
}

/// Spiffe identity binding.
pub struct SpiffeBinding {
    /// Bound authorizations.
    pub authorizations: Option<Vec<SpiffeAuthorization>>,
    /// Domain ID the identity belongs to.
    pub domain_id: String,
    /// SPIFFE SVID.
    pub svid: String,
    /// Whether the identity is system wide (system scope); immutable.
    pub is_system: bool,
    /// The ID of the User the identity is mapped to.
    pub user_id: Option<String>,
}

/// New binding.
pub struct SpiffeBindingCreate {
    /// Bound authorizations.
    pub authorizations: Option<Vec<SpiffeAuthorization>>,
    /// Domain ID the identity belongs to.
    pub domain_id: String,
    /// SPIFFE SVID.
    pub svid: String,
    /// Whether the identity is system wide; system bindings are protected
    /// from deletion.
    pub is_system: bool,
    /// The ID of the User the identity is mapped to.
    pub user_id: Option<String>,
}

/// Update of a Spiffe binding.
pub struct SpiffeBindingUpdate {
    /// Bound authorizations.
    pub authorizations: Option<Vec<SpiffeAuthorization>>,
}

/// Binding list parameters.
pub struct SpiffeBindingListParameters {
    /// Domain ID to filter identity bindings.
    pub domain_id: Option<String>,
    /// The ID of the User the identity is mapped to.
    pub user_id: Option<String>,
}

/// Filter on bindings.
pub enum SpiffeBindingFilter {
    /// Bindings of the given domain.
    Domain(String),
}

impl SpiffeBindingFilter {
    /// Whether the binding passes the filter.
    pub fn matches(&self, obj: &SpiffeBinding) -> (res: bool)
        ensures
            res == match self {
                SpiffeBindingFilter::Domain(val) => obj.domain_id@ == val@,
            },
    {
        match self {
            SpiffeBindingFilter::Domain(val) => obj.domain_id == *val,
        }
    }
}

impl From<SpiffeBindingCreate> for SpiffeBinding {
    fn from(value: SpiffeBindingCreate) -> (res: SpiffeBinding) {
        SpiffeBinding {
            authorizations: value.authorizations,
            domain_id: value.domain_id,
            svid: value.svid,
            is_system: value.is_system,
            user_id: value.user_id,
        }
    }
}

/// The binding that a creation request describes: the same fields.
pub open spec fn binding_of_create(v: SpiffeBindingCreate) -> SpiffeBinding {
    SpiffeBinding {
        authorizations: v.authorizations,
        domain_id: v.domain_id,
        svid: v.svid,
        is_system: v.is_system,
        user_id: v.user_id,
    }
}

impl vstd::std_specs::convert::FromSpecImpl<SpiffeBindingCreate> for SpiffeBinding {
    open spec fn obeys_from_spec() -> bool {
        true
    }

    open spec fn from_spec(v: SpiffeBindingCreate) -> SpiffeBinding {
        binding_of_create(v)
    }
}

impl SpiffeBinding {
    /// Apply the update to the binding, returning the new object: the
    /// authorizations are replaced, everything else is kept.
    pub fn with_update(self, update: SpiffeBindingUpdate) -> (res: SpiffeBinding)
        ensures
            res == (SpiffeBinding { authorizations: update.authorizations, ..self }),
    {
        SpiffeBinding {
            authorizations: update.authorizations,
            domain_id: self.domain_id,
            svid: self.svid,
            is_system: self.is_system,
            user_id: self.user_id,
        }
    }
}

/// Spiffe provider error.
pub enum SpiffeProviderError {
    /// Binding not found.
    BindingNotFound(String),
    /// Conflict.
    Conflict(String),
    /// Driver error, with its message.
    Driver(String),
    /// Raft storage is not available.
    RaftNotAvailable,
    /// Raft storage error, with its message.
    RaftStoreError(String),
    /// Structures builder error, with its message.
    StructBuilder(String),
    /// Unsupported driver.
    UnsupportedDriver(String),
}

impl SpiffeProviderError {
    /// Raft storage error carrying the source's message.
    pub fn raft(source: String) -> (res: SpiffeProviderError)
        ensures
            res == SpiffeProviderError::RaftStoreError(source),
    {
        SpiffeProviderError::RaftStoreError(source)
    }
}

} // verus!
