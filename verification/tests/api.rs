use keystone_verified::api_resource::{
    BuilderError, DomainCreateBuilder, DomainListParameters, DomainShort, ProjectCreateBuilder,
};
use keystone_verified::api_role_assignment::{Assignment, RoleAssignmentListParameters, Scope};
use keystone_verified::api_spiffe;
use keystone_verified::assignment as provider_types;
use keystone_verified::resource::Domain;
use keystone_verified::spiffe;

#[test]
fn test_project_create() {
    let sot = ProjectCreateBuilder::default()
        .name("name".into())
        .domain_id("did".into())
        .build()
        .unwrap();
    assert!(sot.enabled, "enabled defaults to true");
    assert!(!sot.is_domain, "is_domain defaults to false");
    assert!(sot.parent_id.is_none());
    if let Err(BuilderError::Validation(..)) = ProjectCreateBuilder::default()
        .name("name".into())
        .domain_id("did".into())
        .enabled(true)
        .is_domain(true)
        .parent_id("foo".into())
        .build()
    {
    } else {
        panic!("an error should be raised not allowing to set parent_id with the is_domain=true");
    }
}

#[test]
fn test_domain_create() {
    let sot = DomainCreateBuilder::default().name("name".into()).build().unwrap();
    assert!(sot.enabled, "enabled defaults to true");
    assert!(sot.id.is_none());
}

#[test]
fn domain_create_builder() {
    assert!(matches!(
        DomainCreateBuilder::default().build(),
        Err(BuilderError::UninitializedField(f)) if f == "name"
    ));
    let d = DomainCreateBuilder::default()
        .name("n".into())
        .id("did".into())
        .enabled(false)
        .description("text".into())
        .extra(vec![("unknown".into(), "\"bar\"".into())])
        .build()
        .unwrap();
    assert_eq!(d.id.as_deref(), Some("did"));
    assert!(!d.enabled);
    assert_eq!(d.description.as_deref(), Some("text"));
    assert_eq!(d.extra, vec![("unknown".to_string(), "\"bar\"".to_string())]);
    assert_eq!(d.name, "n");
}

#[test]
fn project_create_builder_errors() {
    match ProjectCreateBuilder::default().name("n".into()).build() {
        Err(BuilderError::UninitializedField(f)) => assert_eq!(f, "domain_id"),
        _ => panic!("domain_id is required"),
    }
    match ProjectCreateBuilder::default().domain_id("d".into()).build() {
        Err(BuilderError::UninitializedField(f)) => assert_eq!(f, "name"),
        _ => panic!("name is required"),
    }
    let b = ProjectCreateBuilder::default().is_domain(true).parent_id("p".into());
    assert_eq!(
        b.validate(),
        Err("project cannot specify `parent_id` when `is_domain` is true".to_string())
    );
    assert!(ProjectCreateBuilder::default().parent_id("p".into()).validate().is_ok());
}

fn provider_assignment(t: provider_types::AssignmentType, role_name: Option<&str>) -> provider_types::Assignment {
    provider_types::Assignment {
        role_id: "role".into(),
        role_name: role_name.map(|n| n.to_string()),
        actor_id: "actor".into(),
        target_id: "target".into(),
        assignment_type: t,
        inherited: false,
        implied_via: None,
    }
}

#[test]
fn test_assignment_conversion() {
    let a = Assignment::try_from_assignment(provider_assignment(
        provider_types::AssignmentType::UserProject,
        Some("role_name"),
    ))
    .unwrap();
    assert_eq!(a.role.id, "role");
    assert_eq!(a.role.name.as_deref(), Some("role_name"));
    assert_eq!(a.user.as_ref().unwrap().id, "actor");
    assert!(a.group.is_none());
    assert!(matches!(&a.scope, Scope::Project(p) if p.id == "target"));

    let a = Assignment::try_from_assignment(provider_assignment(
        provider_types::AssignmentType::UserDomain,
        None,
    ))
    .unwrap();
    assert_eq!(a.role.id, "role");
    assert!(a.role.name.is_none());
    assert_eq!(a.user.as_ref().unwrap().id, "actor");
    assert!(a.group.is_none());
    assert!(matches!(&a.scope, Scope::Domain(d) if d.id == "target"));

    let a = Assignment::try_from_assignment(provider_assignment(
        provider_types::AssignmentType::GroupProject,
        None,
    ))
    .unwrap();
    assert_eq!(a.group.as_ref().unwrap().id, "actor");
    assert!(a.user.is_none());
    assert!(matches!(&a.scope, Scope::Project(p) if p.id == "target"));

    let a = Assignment::try_from_assignment(provider_assignment(
        provider_types::AssignmentType::GroupDomain,
        None,
    ))
    .unwrap();
    assert_eq!(a.group.as_ref().unwrap().id, "actor");
    assert!(a.user.is_none());
    assert!(matches!(&a.scope, Scope::Domain(d) if d.id == "target"));
}

#[test]
fn system_assignment_conversion() {
    let a = Assignment::try_from_assignment(provider_assignment(
        provider_types::AssignmentType::GroupSystem,
        None,
    ))
    .unwrap();
    assert_eq!(a.group.as_ref().unwrap().id, "actor");
    assert!(matches!(&a.scope, keystone_verified::api_role_assignment::Scope::System(s) if s.id == "target"));
}

#[test]
fn list_parameters_conversion() {
    let p = RoleAssignmentListParameters {
        role_id: Some("r".into()),
        user_id: Some("u".into()),
        group_id: Some("g".into()),
        project_id: Some("p".into()),
        domain_id: Some("d".into()),
        effective: Some(true),
        include_names: None,
    }
    .try_into_provider()
    .unwrap();
    assert_eq!(p.user_id.as_deref(), Some("u"));
    assert!(p.group_id.is_none());
    assert_eq!(p.project_id.as_deref(), Some("p"));
    assert!(p.domain_id.is_none());
    assert!(p.system_id.is_none());
    assert_eq!(p.effective, Some(true));
    assert!(p.resolve_implied_roles);

    let p = RoleAssignmentListParameters {
        role_id: None,
        user_id: None,
        group_id: Some("g".into()),
        project_id: None,
        domain_id: Some("d".into()),
        effective: None,
        include_names: Some(true),
    }
    .try_into_provider()
    .unwrap();
    assert_eq!(p.group_id.as_deref(), Some("g"));
    assert_eq!(p.domain_id.as_deref(), Some("d"));
    assert_eq!(p.include_names, Some(true));
}

#[test]
fn domain_short_conversion() {
    let d = Domain {
        id: "did".into(),
        name: "dom".into(),
        enabled: true,
        description: Some("x".into()),
    };
    let s = DomainShort::from(&d);
    assert_eq!((s.id.as_str(), s.name.as_str(), s.enabled), ("did", "dom", true));
    let s = DomainShort::from(d);
    assert_eq!(s.id, "did");
    let p = DomainListParameters {
        ids: Some("a".into()),
        name: None,
    }
    .into_provider();
    assert_eq!(p.ids, Some(vec!["a".to_string()]));
}

#[test]
fn spiffe_binding_conversions() {
    let req = api_spiffe::SpiffeBindingCreateRequest {
        binding: api_spiffe::SpiffeBindingCreate {
            domain_id: "did".into(),
            is_system: false,
            svid: "spiffe://x".into(),
            user_id: None,
            authorizations: Some(vec![api_spiffe::SpiffeAuthorization::Project {
                project_id: "pid".into(),
                role_ids: Some(vec!["r1".into()]),
            }]),
        },
    };
    let create = req.into_provider();
    assert_eq!(create.svid, "spiffe://x");
    match create.authorizations.as_deref() {
        Some([spiffe::SpiffeAuthorization::Project { project_id, role_ids }]) => {
            assert_eq!(project_id, "pid");
            assert_eq!(role_ids.as_ref().unwrap(), &vec!["r1".to_string()]);
        }
        _ => panic!("authorization not converted"),
    }
    let binding = spiffe::SpiffeBinding::from(create);
    let api = api_spiffe::SpiffeBinding::from_provider(binding);
    assert_eq!(api.domain_id, "did");
    assert!(matches!(
        api.authorizations.as_deref(),
        Some([api_spiffe::SpiffeAuthorization::Project { .. }])
    ));
}
