//! SPIFFE binding API types and their conversions to and from the provider
//! types.
use vstd::prelude::*;
use crate::spiffe as provider;

verus! {

/// Authorization information of a binding, as the API shows it.
pub enum SpiffeAuthorization {
    /// Domain scope.
    Domain { domain_id: String, role_ids: Option<Vec<String>> },
    /// Project scope.
    Project { project_id: String, role_ids: Option<Vec<String>> },
    /// System authorization.
    System { system_id: String, role_ids: Option<Vec<String>> },
}

/// The provider authorization an API authorization converts to: the same
/// scope, id and roles.
pub open spec fn provider_authorization_of(a: SpiffeAuthorization) -> provider::SpiffeAuthorization {
    match a {
        SpiffeAuthorization::Domain { domain_id, role_ids } => provider::SpiffeAuthorization::Domain {
            domain_id,
            role_ids,
        },
        SpiffeAuthorization::Project { project_id, role_ids } => provider::SpiffeAuthorization::Project {
            project_id,
            role_ids,
        },
        SpiffeAuthorization::System { system_id, role_ids } => provider::SpiffeAuthorization::System {
            system_id,
            role_ids,
        },
    }
}

/// The API authorization a provider authorization converts to: the same
/// scope, id and roles.
pub open spec fn api_authorization_of(a: provider::SpiffeAuthorization) -> SpiffeAuthorization {
    match a {
        provider::SpiffeAuthorization::Domain { domain_id, role_ids } => SpiffeAuthorization::Domain {
            domain_id,
            role_ids,
        },
        provider::SpiffeAuthorization::Project { project_id, role_ids } => SpiffeAuthorization::Project {
            project_id,
            role_ids,
        },
        provider::SpiffeAuthorization::System { system_id, role_ids } => SpiffeAuthorization::System {
            system_id,
            role_ids,
        },
    }
}

impl From<SpiffeAuthorization> for provider::SpiffeAuthorization {
    fn from(value: SpiffeAuthorization) -> (res: provider::SpiffeAuthorization) {
        match value {
            SpiffeAuthorization::Domain { domain_id, role_ids } => provider::SpiffeAuthorization::Domain {
                domain_id,
                role_ids,
            },
            SpiffeAuthorization::Project { project_id, role_ids } => provider::SpiffeAuthorization::Project {
                project_id,
                role_ids,
            },
            SpiffeAuthorization::System { system_id, role_ids } => provider::SpiffeAuthorization::System {
                system_id,
                role_ids,
            },
        }
    }
}

impl vstd::std_specs::convert::FromSpecImpl<SpiffeAuthorization> for provider::SpiffeAuthorization {
    open spec fn obeys_from_spec() -> bool {
        true
    }

    open spec fn from_spec(v: SpiffeAuthorization) -> provider::SpiffeAuthorization {
        provider_authorization_of(v)
    }
}

impl From<provider::SpiffeAuthorization> for SpiffeAuthorization {
    fn from(value: provider::SpiffeAuthorization) -> (res: SpiffeAuthorization) {
        match value {
            provider::SpiffeAuthorization::Domain { domain_id, role_ids } => SpiffeAuthorization::Domain {
                domain_id,
                role_ids,
            },
            provider::SpiffeAuthorization::Project { project_id, role_ids } => SpiffeAuthorization::Project {
                project_id,
                role_ids,
            },
            provider::SpiffeAuthorization::System { system_id, role_ids } => SpiffeAuthorization::System {
                system_id,
                role_ids,
            },
        }
    }
}

impl vstd::std_specs::convert::FromSpecImpl<provider::SpiffeAuthorization> for SpiffeAuthorization {
    open spec fn obeys_from_spec() -> bool {
        true
    }

    open spec fn from_spec(v: provider::SpiffeAuthorization) -> SpiffeAuthorization {
        api_authorization_of(v)
    }
}

/// Converts a list of API authorizations to provider ones, in order.
pub fn to_provider_authorizations(v: Vec<SpiffeAuthorization>) -> (res: Vec<provider::SpiffeAuthorization>)
    ensures
        res@ == v@.map_values(|a: SpiffeAuthorization| provider_authorization_of(a)),
{
    let mut res: Vec<provider::SpiffeAuthorization> = Vec::new();
    let mut rest = v;
    let ghost all = rest@;
    let n = rest.len();
    let mut i: usize = 0;
    while rest.len() > 0
        invariant
            i + rest@.len() == all.len(),
            all.len() == n,
            rest@ == all.subrange(i as int, all.len() as int),
            res@ == all.subrange(0, i as int).map_values(
                |a: SpiffeAuthorization| provider_authorization_of(a),
            ),
        decreases rest@.len(),
    {
        let a = rest.remove(0);
        assert(a == all[i as int]);
        res.push(provider::SpiffeAuthorization::from(a));
        assert(all.subrange(0, i + 1).map_values(
            |a: SpiffeAuthorization| provider_authorization_of(a),
        ) =~= all.subrange(0, i as int).map_values(
            |a: SpiffeAuthorization| provider_authorization_of(a),
        ).push(provider_authorization_of(all[i as int])));
        i += 1;
        assert(rest@ =~= all.subrange(i as int, all.len() as int));
    }
    assert(all.subrange(0, n as int) =~= all);
    res
}

/// Converts a list of provider authorizations to API ones, in order.
pub fn to_api_authorizations(v: Vec<provider::SpiffeAuthorization>) -> (res: Vec<SpiffeAuthorization>)
    ensures
        res@ == v@.map_values(|a: provider::SpiffeAuthorization| api_authorization_of(a)),
{
    let mut res: Vec<SpiffeAuthorization> = Vec::new();
    let mut rest = v;
    let ghost all = rest@;
    let n = rest.len();
    let mut i: usize = 0;
    while rest.len() > 0
        invariant
            i + rest@.len() == all.len(),
            all.len() == n,
            rest@ == all.subrange(i as int, all.len() as int),
            res@ == all.subrange(0, i as int).map_values(
                |a: provider::SpiffeAuthorization| api_authorization_of(a),
            ),
        decreases rest@.len(),
    {
        let a = rest.remove(0);
        assert(a == all[i as int]);
        res.push(SpiffeAuthorization::from(a));
        assert(all.subrange(0, i + 1).map_values(
            |a: provider::SpiffeAuthorization| api_authorization_of(a),
        ) =~= all.subrange(0, i as int).map_values(
            |a: provider::SpiffeAuthorization| api_authorization_of(a),
        ).push(api_authorization_of(all[i as int])));
        i += 1;
        assert(rest@ =~= all.subrange(i as int, all.len() as int));
    }
    assert(all.subrange(0, n as int) =~= all);
    res
}

/// The provider authorizations of an optional API list.
pub open spec fn opt_provider_authorizations(o: Option<Vec<SpiffeAuthorization>>) -> Option<
    Seq<provider::SpiffeAuthorization>,
> {
    match o {
        Some(v) => Some(v@.map_values(|a: SpiffeAuthorization| provider_authorization_of(a))),
        None => None,
    }
}

/// The API authorizations of an optional provider list.
pub open spec fn opt_api_authorizations(o: Option<Vec<provider::SpiffeAuthorization>>) -> Option<
    Seq<SpiffeAuthorization>,
> {
    match o {
        Some(v) => Some(v@.map_values(|a: provider::SpiffeAuthorization| api_authorization_of(a))),
        None => None,
    }
}

/// The sequence held by an optional list.
pub open spec fn opt_seq<T>(o: Option<Vec<T>>) -> Option<Seq<T>> {
    match o {
        Some(v) => Some(v@),
        None => None,
    }
}

/// A SPIFFE binding, as the API shows it.
pub struct SpiffeBinding {
    pub domain_id: String,
    pub is_system: bool,
    pub svid: String,
    pub user_id: Option<String>,
    pub authorizations: Option<Vec<SpiffeAuthorization>>,
}

impl SpiffeBinding {
    /// The API view of a provider binding: the same fields, authorizations
    /// converted in order.
    pub fn from_provider(value: provider::SpiffeBinding) -> (res: SpiffeBinding)
        ensures
            res.domain_id == value.domain_id,
            res.is_system == value.is_system,
            res.svid == value.svid,
            res.user_id == value.user_id,
            opt_seq(res.authorizations) == opt_api_authorizations(value.authorizations),
    {
        SpiffeBinding {
            domain_id: value.domain_id,
            is_system: value.is_system,
            svid: value.svid,
            user_id: value.user_id,
            authorizations: match value.authorizations {
                Some(auths) => Some(to_api_authorizations(auths)),
                None => None,
            },
        }
    }
}

/// A single binding response.
pub struct SpiffeBindingResponse {
    pub binding: SpiffeBinding,
}

/// A binding creation, as the API takes it.
pub struct SpiffeBindingCreate {
    pub domain_id: String,
    pub is_system: bool,
    pub svid: String,
    pub user_id: Option<String>,
    pub authorizations: Option<Vec<SpiffeAuthorization>>,
}

/// A binding creation request.
pub struct SpiffeBindingCreateRequest {
    pub binding: SpiffeBindingCreate,
}

impl SpiffeBindingCreateRequest {
    /// The provider creation the request describes: the same fields,
    /// authorizations converted in order.
    pub fn into_provider(self) -> (res: provider::SpiffeBindingCreate)
        ensures
            res.domain_id == self.binding.domain_id,
            res.is_system == self.binding.is_system,
            res.svid == self.binding.svid,
            res.user_id == self.binding.user_id,
            opt_seq(res.authorizations) == opt_provider_authorizations(self.binding.authorizations),
    {
        let b = self.binding;
        provider::SpiffeBindingCreate {
            domain_id: b.domain_id,
            is_system: b.is_system,
            svid: b.svid,
            user_id: b.user_id,
            authorizations: match b.authorizations {
                Some(auths) => Some(to_provider_authorizations(auths)),
                None => None,
            },
        }
    }
}

/// A binding update, as the API takes it.
pub struct SpiffeBindingUpdate {
    pub authorizations: Option<Vec<SpiffeAuthorization>>,
}

/// A binding update request.
pub struct SpiffeBindingUpdateRequest {
    pub binding: SpiffeBindingUpdate,
}

impl SpiffeBindingUpdateRequest {
    /// The provider update the request describes: the authorizations,
    /// converted in order.
    pub fn into_provider(self) -> (res: provider::SpiffeBindingUpdate)
        ensures
            opt_seq(res.authorizations) == opt_provider_authorizations(self.binding.authorizations),
    {
        provider::SpiffeBindingUpdate {
            authorizations: match self.binding.authorizations {
                Some(auths) => Some(to_provider_authorizations(auths)),
                None => None,
            },
        }
    }
}

/// Binding listing parameters, as the API takes them.
pub struct SpiffeBindingListParameters {
    pub domain_id: Option<String>,
    pub user_id: Option<String>,
}

impl From<SpiffeBindingListParameters> for provider::SpiffeBindingListParameters {
    fn from(value: SpiffeBindingListParameters) -> (res: provider::SpiffeBindingListParameters) {
        provider::SpiffeBindingListParameters { domain_id: value.domain_id, user_id: value.user_id }
    }
}

impl vstd::std_specs::convert::FromSpecImpl<SpiffeBindingListParameters> for provider::SpiffeBindingListParameters {
    open spec fn obeys_from_spec() -> bool {
        true
    }

    open spec fn from_spec(v: SpiffeBindingListParameters) -> provider::SpiffeBindingListParameters {
        provider::SpiffeBindingListParameters { domain_id: v.domain_id, user_id: v.user_id }
    }
}

/// A link to related resources.
pub struct Link {
    pub href: String,
    pub rel: String,
}

/// A list of bindings.
pub struct SpiffeBindingList {
    pub bindings: Vec<SpiffeBinding>,
    pub links: Option<Vec<Link>>,
}

/// Converting an authorization to the provider form and back gives it
/// back, and so does the other way round.
pub proof fn lemma_authorization_roundtrip(a: SpiffeAuthorization, p: provider::SpiffeAuthorization)
    ensures
        api_authorization_of(provider_authorization_of(a)) == a,
        provider_authorization_of(api_authorization_of(p)) == p,
{
}

} // verus!
