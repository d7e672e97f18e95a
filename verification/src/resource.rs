//! Domains, projects and groups as seen by the authorization logic.
use vstd::prelude::*;
use crate::util::{clone_opt_string, opt_str, opt_string_eq};

verus! {

/// A domain.
pub struct Domain {
    /// The domain ID.
    pub id: String,
    /// The domain name.
    pub name: String,
    /// Whether the domain is enabled.
    pub enabled: bool,
    /// Optional description.
    pub description: Option<String>,
}

/// The content of a [`Domain`].
pub struct DomainView {
    pub id: Seq<char>,
    pub name: Seq<char>,
    pub enabled: bool,
    pub description: Option<Seq<char>>,
}

impl View for Domain {
    type V = DomainView;

    open spec fn view(&self) -> DomainView {
        DomainView {
            id: self.id@,
            name: self.name@,
            enabled: self.enabled,
            description: opt_str(self.description),
        }
    }
}

impl Clone for Domain {
    fn clone(&self) -> (res: Self)
        ensures
            res == *self,
    {
        Domain {
            id: self.id.clone(),
            name: self.name.clone(),
            enabled: self.enabled,
            description: clone_opt_string(&self.description),
        }
    }
}

impl Domain {
    /// Compares two domains by content.
    pub fn same_as(&self, other: &Domain) -> (res: bool)
        ensures
            res == (self@ == other@),
    {
        self.id == other.id && self.name == other.name && self.enabled == other.enabled
            && opt_string_eq(&self.description, &other.description)
    }
}

/// A project.
pub struct Project {
    /// The project ID.
    pub id: String,
    /// The ID of the owning domain.
    pub domain_id: String,
    /// Whether the project is enabled.
    pub enabled: bool,
    /// The project name.
    pub name: String,
    /// Optional description.
    pub description: Option<String>,
    /// Whether the project also acts as a domain.
    pub is_domain: bool,
    /// The parent project, if any.
    pub parent_id: Option<String>,
}

impl Clone for Project {
    fn clone(&self) -> (res: Self)
        ensures
            res == *self,
    {
        Project {
            id: self.id.clone(),
            domain_id: self.domain_id.clone(),
            enabled: self.enabled,
            name: self.name.clone(),
            description: clone_opt_string(&self.description),
            is_domain: self.is_domain,
            parent_id: clone_opt_string(&self.parent_id),
        }
    }
}

/// A user group.
pub struct Group {
    /// The group ID.
    pub id: String,
    /// The owning domain.
    pub domain_id: String,
    /// The group name.
    pub name: String,
    /// Optional description.
    pub description: Option<String>,
}

/// The content of a [`Group`].
pub struct GroupView {
    pub id: Seq<char>,
    pub domain_id: Seq<char>,
    pub name: Seq<char>,
    pub description: Option<Seq<char>>,
}

impl View for Group {
    type V = GroupView;

    open spec fn view(&self) -> GroupView {
        GroupView {
            id: self.id@,
            domain_id: self.domain_id@,
            name: self.name@,
            description: opt_str(self.description),
        }
    }
}

impl Clone for Group {
    fn clone(&self) -> (res: Self)
        ensures
            res == *self,
    {
        Group {
            id: self.id.clone(),
            domain_id: self.domain_id.clone(),
            name: self.name.clone(),
            description: clone_opt_string(&self.description),
        }
    }
}

impl Group {
    /// Compares two groups by content.
    pub fn same_as(&self, other: &Group) -> (res: bool)
        ensures
            res == (self@ == other@),
    {
        self.id == other.id && self.domain_id == other.domain_id && self.name == other.name
            && opt_string_eq(&self.description, &other.description)
    }
}

} // verus!
