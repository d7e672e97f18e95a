//! Domain and project API types, and their conversions.
use vstd::prelude::*;
use crate::resource;

verus! {

/// A short domain representation.
pub struct DomainShort {
    /// If set to true, domain is enabled.
    pub enabled: bool,
    /// The domain ID.
    pub id: String,
    /// The domain name.
    pub name: String,
}

/// The short representation of a domain.
pub open spec fn domain_short_of(d: resource::Domain) -> DomainShort {
    DomainShort { enabled: d.enabled, id: d.id, name: d.name }
}

impl From<resource::Domain> for DomainShort {
    fn from(value: resource::Domain) -> (res: DomainShort) {
        DomainShort { enabled: value.enabled, id: value.id, name: value.name }
    }
}

impl vstd::std_specs::convert::FromSpecImpl<resource::Domain> for DomainShort {
    open spec fn obeys_from_spec() -> bool {
        true
    }

    open spec fn from_spec(v: resource::Domain) -> DomainShort {
        domain_short_of(v)
    }
}

impl<'a> From<&'a resource::Domain> for DomainShort {
    fn from(value: &'a resource::Domain) -> (res: DomainShort) {
        DomainShort { enabled: value.enabled, id: value.id.clone(), name: value.name.clone() }
    }
}

impl<'a> vstd::std_specs::convert::FromSpecImpl<&'a resource::Domain> for DomainShort {
    open spec fn obeys_from_spec() -> bool {
        true
    }

    open spec fn from_spec(v: &'a resource::Domain) -> DomainShort {
        domain_short_of(*v)
    }
}

/// Domain listing parameters, as the API takes them.
pub struct DomainListParameters {
    /// Filter domains by the id.
    pub ids: Option<String>,
    /// Filter domains by the name attribute.
    pub name: Option<String>,
}

/// Domain listing parameters, as the provider takes them.
pub struct ProviderDomainListParameters {
    /// Filter domains by these ids, each once.
    pub ids: Option<Vec<String>>,
    /// Filter domains by the name attribute.
    pub name: Option<String>,
}

impl DomainListParameters {
    /// The provider parameters: the single id becomes a set of one.
    pub fn into_provider(self) -> (res: ProviderDomainListParameters)
        ensures
            res.name == self.name,
            match self.ids {
                Some(i) => res.ids matches Some(v) && v@ == seq![i],
                None => res.ids is None,
            },
    {
        let ids = match self.ids {
            Some(i) => {
                let mut v: Vec<String> = Vec::new();
                v.push(i);
                Some(v)
            },
            None => None,
        };
        ProviderDomainListParameters { ids, name: self.name }
    }
}

/// A full domain representation, as the API gives it.
pub struct Domain {
    /// The description of the domain.
    pub description: Option<String>,
    /// If set to true, domain is enabled.
    pub enabled: bool,
    /// Additional properties: each name with its JSON text.
    pub extra: Vec<(String, String)>,
    /// The domain ID.
    pub id: String,
    /// The domain name.
    pub name: String,
}

/// A new domain, as the API takes it.
pub struct DomainCreate {
    /// The description of the domain.
    pub description: Option<String>,
    /// If set to true, domain is enabled.
    pub enabled: bool,
    /// Additional properties: each name with its JSON text.
    pub extra: Vec<(String, String)>,
    /// The domain ID, when the caller chooses it.
    pub id: Option<String>,
    /// The domain name.
    pub name: String,
}

/// Complete response with the domain data.
pub struct DomainResponse {
    /// Domain object.
    pub domain: Domain,
}

/// New domain creation request.
pub struct DomainCreateRequest {
    /// Domain object.
    pub domain: DomainCreate,
}

/// List of domains.
pub struct DomainList {
    /// Collection of domain objects.
    pub domains: Vec<Domain>,
}

/// A short project representation.
pub struct ProjectShort {
    /// The ID of the domain for the project.
    pub domain_id: String,
    /// If set to true, project is enabled.
    pub enabled: bool,
    /// The ID for the project.
    pub id: String,
    /// The name of the project.
    pub name: String,
}

/// A list of short projects.
pub struct ProjectShortList {
    /// Collection of project objects.
    pub projects: Vec<ProjectShort>,
}

/// Project listing parameters.
pub struct ProjectListParameters {
    /// Filter projects by the domain.
    pub domain_id: Option<String>,
    /// Filter projects by the id.
    pub ids: Option<String>,
    /// Filter projects by the name.
    pub name: Option<String>,
}

/// A full project representation, as the API gives it.
pub struct Project {
    /// The description of the project.
    pub description: Option<String>,
    /// The ID of the domain for the project.
    pub domain_id: String,
    /// If set to true, project is enabled.
    pub enabled: bool,
    /// Additional properties: each name with its JSON text.
    pub extra: Vec<(String, String)>,
    /// The ID for the project.
    pub id: String,
    /// Whether the project is a domain.
    pub is_domain: bool,
    /// The name of the project.
    pub name: String,
    /// The ID of the parent of the project.
    pub parent_id: Option<String>,
}

/// Complete response with the project data.
pub struct ProjectResponse {
    /// Project object.
    pub project: Project,
}

/// New project creation request.
pub struct ProjectCreateRequest {
    /// Project object.
    pub project: ProjectCreate,
}

/// A new project, as the API takes it.
pub struct ProjectCreate {
    /// The description of the project.
    pub description: Option<String>,
    /// The ID of the domain for the project.
    pub domain_id: String,
    /// If set to true, project is enabled.
    pub enabled: bool,
    /// Additional properties: each name with its JSON text.
    pub extra: Vec<(String, String)>,
    /// Whether the project is a domain.
    pub is_domain: bool,
    /// The name of the project.
    pub name: String,
    /// The ID of the parent of the project.
    pub parent_id: Option<String>,
}

/// What a [`ProjectCreate`] holds.
pub struct ProjectCreateView {
    pub description: Option<String>,
    pub domain_id: String,
    pub enabled: bool,
    pub extra: Seq<(String, String)>,
    pub is_domain: bool,
    pub name: String,
    pub parent_id: Option<String>,
}

/// Errors of the structure builders.
#[derive(Debug)]
pub enum BuilderError {
    /// A required field was not set: its name.
    UninitializedField(String),
    /// The fields do not fit together.
    Validation(String),
}

/// The content of a [`BuilderError`].
pub enum BuilderErrorView {
    UninitializedField(Seq<char>),
    Validation(Seq<char>),
}

impl View for BuilderError {
    type V = BuilderErrorView;

    open spec fn view(&self) -> BuilderErrorView {
        match self {
            BuilderError::UninitializedField(f) => BuilderErrorView::UninitializedField(f@),
            BuilderError::Validation(m) => BuilderErrorView::Validation(m@),
        }
    }
}

/// Builder of a [`ProjectCreate`]: every field starts unset.
pub struct ProjectCreateBuilder {
    pub description: Option<Option<String>>,
    pub domain_id: Option<String>,
    pub enabled: Option<bool>,
    pub extra: Option<Vec<(String, String)>>,
    pub is_domain: Option<bool>,
    pub name: Option<String>,
    pub parent_id: Option<Option<String>>,
}

impl Default for ProjectCreateBuilder {
    fn default() -> (res: ProjectCreateBuilder)
        ensures
            res.description is None && res.domain_id is None && res.enabled is None
                && res.extra is None && res.is_domain is None && res.name is None
                && res.parent_id is None,
    {
        ProjectCreateBuilder {
            description: None,
            domain_id: None,
            enabled: None,
            extra: None,
            is_domain: None,
            name: None,
            parent_id: None,
        }
    }
}

/// The message for a project that is a domain and has a parent.
pub open spec fn parent_of_domain_message() -> Seq<char> {
    "project cannot specify `parent_id` when `is_domain` is true"@
}

/// What building a project from the builder gives: refused when it is a
/// domain with a parent; a required field (the domain, then the name) must
/// be set; the others default to no description, enabled, no extra
/// properties, not a domain and no parent.
pub open spec fn built_project(b: ProjectCreateBuilder) -> Result<ProjectCreateView, BuilderErrorView> {
    if b.parent_id is Some && b.is_domain == Some(true) {
        Err(BuilderErrorView::Validation(parent_of_domain_message()))
    } else if b.domain_id is None {
        Err(BuilderErrorView::UninitializedField("domain_id"@))
    } else if b.name is None {
        Err(BuilderErrorView::UninitializedField("name"@))
    } else {
        Ok(
            ProjectCreateView {
                description: match b.description {
                    Some(d) => d,
                    None => None,
                },
                domain_id: b.domain_id->0,
                enabled: match b.enabled {
                    Some(e) => e,
                    None => true,
                },
                extra: match b.extra {
                    Some(x) => x@,
                    None => Seq::<(String, String)>::empty(),
                },
                is_domain: match b.is_domain {
                    Some(d) => d,
                    None => false,
                },
                name: b.name->0,
                parent_id: match b.parent_id {
                    Some(p) => p,
                    None => None,
                },
            },
        )
    }
}

impl ProjectCreateBuilder {
    /// Refuses a project that is a domain and has a parent.
    pub fn validate(&self) -> (res: Result<(), String>)
        ensures
            match res {
                Err(m) => self.parent_id is Some && self.is_domain == Some(true) && m@
                    == parent_of_domain_message(),
                Ok(()) => !(self.parent_id is Some && self.is_domain == Some(true)),
            },
    {
        if self.parent_id.is_some() && self.is_domain == Some(true) {
            return Err(
                String::from_str("project cannot specify `parent_id` when `is_domain` is true"),
            );
        }
        Ok(())
    }

    /// Sets the description.
    pub fn description(self, value: String) -> (res: Self)
        ensures
            res == (ProjectCreateBuilder { description: Some(Some(value)), ..self }),
    {
        ProjectCreateBuilder { description: Some(Some(value)), ..self }
    }

    /// Sets the domain.
    pub fn domain_id(self, value: String) -> (res: Self)
        ensures
            res == (ProjectCreateBuilder { domain_id: Some(value), ..self }),
    {
        ProjectCreateBuilder { domain_id: Some(value), ..self }
    }

    /// Sets whether the project is enabled.
    pub fn enabled(self, value: bool) -> (res: Self)
        ensures
            res == (ProjectCreateBuilder { enabled: Some(value), ..self }),
    {
        ProjectCreateBuilder { enabled: Some(value), ..self }
    }

    /// Sets the additional properties.
    pub fn extra(self, value: Vec<(String, String)>) -> (res: Self)
        ensures
            res == (ProjectCreateBuilder { extra: Some(value), ..self }),
    {
        ProjectCreateBuilder { extra: Some(value), ..self }
    }

    /// Sets whether the project is a domain.
    pub fn is_domain(self, value: bool) -> (res: Self)
        ensures
            res == (ProjectCreateBuilder { is_domain: Some(value), ..self }),
    {
        ProjectCreateBuilder { is_domain: Some(value), ..self }
    }

    /// Sets the name.
    pub fn name(self, value: String) -> (res: Self)
        ensures
            res == (ProjectCreateBuilder { name: Some(value), ..self }),
    {
        ProjectCreateBuilder { name: Some(value), ..self }
    }

    /// Sets the parent.
    pub fn parent_id(self, value: String) -> (res: Self)
        ensures
            res == (ProjectCreateBuilder { parent_id: Some(Some(value)), ..self }),
    {
        ProjectCreateBuilder { parent_id: Some(Some(value)), ..self }
    }

    /// Builds the project.
    pub fn build(self) -> (res: Result<ProjectCreate, BuilderError>)
        ensures
            match built_project(self) {
                Ok(p) => res matches Ok(q) && q.description == p.description && q.domain_id
                    == p.domain_id && q.enabled == p.enabled && q.extra@ == p.extra
                    && q.is_domain == p.is_domain && q.name == p.name && q.parent_id
                    == p.parent_id,
                Err(e) => res matches Err(f) && f@ == e,
            },
    {
        if let Err(m) = self.validate() {
            return Err(BuilderError::Validation(m));
        }
        let domain_id = match self.domain_id {
            Some(d) => d,
            None => {
                return Err(BuilderError::UninitializedField(String::from_str("domain_id")));
            },
        };
        let name = match self.name {
            Some(n) => n,
            None => {
                return Err(BuilderError::UninitializedField(String::from_str("name")));
            },
        };
        let extra = match self.extra {
            Some(x) => x,
            None => Vec::new(),
        };
        Ok(
            ProjectCreate {
                description: match self.description {
                    Some(d) => d,
                    None => None,
                },
                domain_id,
                enabled: match self.enabled {
                    Some(e) => e,
                    None => true,
                },
                extra,
                is_domain: match self.is_domain {
                    Some(d) => d,
                    None => false,
                },
                name,
                parent_id: match self.parent_id {
                    Some(p) => p,
                    None => None,
                },
            },
        )
    }
}

/// Builder of a [`DomainCreate`]: every field starts unset.
pub struct DomainCreateBuilder {
    pub description: Option<Option<String>>,
    pub enabled: Option<bool>,
    pub extra: Option<Vec<(String, String)>>,
    pub id: Option<Option<String>>,
    pub name: Option<String>,
}

impl Default for DomainCreateBuilder {
    fn default() -> (res: DomainCreateBuilder)
        ensures
            res.description is None && res.enabled is None && res.extra is None && res.id is None
                && res.name is None,
    {
        DomainCreateBuilder { description: None, enabled: None, extra: None, id: None, name: None }
    }
}

impl DomainCreateBuilder {
    /// Sets the description.
    pub fn description(self, value: String) -> (res: Self)
        ensures
            res == (DomainCreateBuilder { description: Some(Some(value)), ..self }),
    {
        DomainCreateBuilder { description: Some(Some(value)), ..self }
    }

    /// Sets whether the domain is enabled.
    pub fn enabled(self, value: bool) -> (res: Self)
        ensures
            res == (DomainCreateBuilder { enabled: Some(value), ..self }),
    {
        DomainCreateBuilder { enabled: Some(value), ..self }
    }

    /// Sets the additional properties.
    pub fn extra(self, value: Vec<(String, String)>) -> (res: Self)
        ensures
            res == (DomainCreateBuilder { extra: Some(value), ..self }),
    {
        DomainCreateBuilder { extra: Some(value), ..self }
    }

    /// Sets the domain ID.
    pub fn id(self, value: String) -> (res: Self)
        ensures
            res == (DomainCreateBuilder { id: Some(Some(value)), ..self }),
    {
        DomainCreateBuilder { id: Some(Some(value)), ..self }
    }

    /// Sets the name.
    pub fn name(self, value: String) -> (res: Self)
        ensures
            res == (DomainCreateBuilder { name: Some(value), ..self }),
    {
        DomainCreateBuilder { name: Some(value), ..self }
    }

    /// Builds the domain: the name is required; the others default to no
    /// description, enabled, no extra properties and no ID.
    pub fn build(self) -> (res: Result<DomainCreate, BuilderError>)
        ensures
            match self.name {
                None => res matches Err(e) && e@ == BuilderErrorView::UninitializedField("name"@),
                Some(n) => res matches Ok(d) && d.name == n && d.description == (match self.description {
                    Some(x) => x,
                    None => None,
                }) && d.enabled == (match self.enabled {
                    Some(e) => e,
                    None => true,
                }) && d.extra@ == (match self.extra {
                    Some(x) => x@,
                    None => Seq::<(String, String)>::empty(),
                }) && d.id == (match self.id {
                    Some(i) => i,
                    None => None,
                }),
            },
    {
        let name = match self.name {
            Some(n) => n,
            None => {
                return Err(BuilderError::UninitializedField(String::from_str("name")));
            },
        };
        let extra = match self.extra {
            Some(x) => x,
            None => Vec::new(),
        };
        Ok(
            DomainCreate {
                description: match self.description {
                    Some(d) => d,
                    None => None,
                },
                enabled: match self.enabled {
                    Some(e) => e,
                    None => true,
                },
                extra,
                id: match self.id {
                    Some(i) => i,
                    None => None,
                },
                name,
            },
        )
    }
}

} // verus!
