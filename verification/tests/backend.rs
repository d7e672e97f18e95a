use keystone_verified::assignment::{
    Assignment, AssignmentType, RoleAssignmentListForMultipleActorTargetParameters,
    RoleAssignmentListParameters, RoleAssignmentTarget, RoleAssignmentTargetType,
};
use keystone_verified::assignment_backend::{
    assignment_list_lookups, implied_role_ids, list_assignments_for_multiple_actors_and_targets,
    list_for_multiple_actors_and_targets, multiple_actor_target_request, resolve_implied_roles,
    select_rows, table_query_for,
};
use keystone_verified::assignment_service::{
    fill_role_names, needs_role_names, revocation_event_for, with_role_names,
};
use keystone_verified::role::{Role, RoleImply, RoleRef};

fn assignment(role_id: &str, target_id: &str, t: AssignmentType, implied_via: Option<&str>) -> Assignment {
    Assignment {
        role_id: role_id.into(),
        role_name: None,
        actor_id: "actor".into(),
        target_id: target_id.into(),
        assignment_type: t,
        inherited: false,
        implied_via: implied_via.map(|s| s.to_string()),
    }
}

fn role_assignment_row(role_id: &str) -> Assignment {
    assignment(role_id, "target", AssignmentType::UserProject, None)
}

fn system_assignment_row(role_id: &str) -> Assignment {
    assignment(role_id, "system", AssignmentType::UserSystem, None)
}

fn role_ref(id: &str, name: &str) -> RoleRef {
    RoleRef {
        id: id.into(),
        name: Some(name.into()),
        domain_id: None,
    }
}

fn imply(prior: &str, implied: &str) -> RoleImply {
    RoleImply {
        prior_role: role_ref(prior, &format!("r{prior}")),
        implied_role: role_ref(implied, &format!("r{implied}")),
    }
}

fn contains(v: &[Assignment], a: &Assignment) -> bool {
    v.iter().any(|x| x.same_as(a))
}

fn target(id: &str, t: RoleAssignmentTargetType, inherited: Option<bool>) -> RoleAssignmentTarget {
    RoleAssignmentTarget {
        id: id.into(),
        target_type: t,
        inherited,
    }
}

fn params(
    actors: &[&str],
    targets: Vec<RoleAssignmentTarget>,
    role_id: Option<&str>,
    resolve_implied_roles: bool,
) -> RoleAssignmentListForMultipleActorTargetParameters {
    RoleAssignmentListForMultipleActorTargetParameters {
        actors: actors.iter().map(|a| a.to_string()).collect(),
        role_id: role_id.map(|r| r.to_string()),
        targets,
        resolve_implied_roles,
    }
}

#[test]
fn test_list_for_multiple_actor_targets_multiple_actors() {
    let regular = vec![role_assignment_row("1")];
    let system = vec![system_assignment_row("3")];
    let rules = vec![imply("1", "2")];
    let res = list_assignments_for_multiple_actors_and_targets(
        &params(&[], vec![], None, true),
        &regular,
        &system,
        &rules,
    );
    assert_eq!(3, res.len());
    assert!(contains(&res, &assignment("1", "target", AssignmentType::UserProject, None)));
    assert!(contains(&res, &assignment("2", "target", AssignmentType::UserProject, Some("1"))));
    assert!(contains(&res, &assignment("3", "system", AssignmentType::UserSystem, None)));
}

#[test]
fn test_list_for_multiple_actor_no_implied_roles() {
    let regular = vec![role_assignment_row("1")];
    let system = vec![system_assignment_row("3")];
    let res = list_assignments_for_multiple_actors_and_targets(
        &params(&[], vec![], None, false),
        &regular,
        &system,
        &vec![imply("1", "2")],
    );
    assert_eq!(2, res.len());
    assert!(contains(&res, &assignment("1", "target", AssignmentType::UserProject, None)));
    assert!(contains(&res, &assignment("3", "system", AssignmentType::UserSystem, None)));
    assert!(res.iter().all(|a| a.role_id != "2"), "implied role should not be present");
}

#[test]
fn test_list_for_multiple_actor_no_target_role_id_collision() {
    let mut regular = vec![role_assignment_row("1")];
    regular[0].actor_id = "uid1".into();
    let mut system = vec![system_assignment_row("1")];
    system[0].actor_id = "uid1".into();
    let rules = vec![imply("1", "2")];
    let res = list_assignments_for_multiple_actors_and_targets(
        &params(&["uid1"], vec![], None, true),
        &regular,
        &system,
        &rules,
    );
    assert_eq!(4, res.len());
    let with_actor = |mut a: Assignment| {
        a.actor_id = "uid1".into();
        a
    };
    assert!(contains(&res, &with_actor(assignment("1", "target", AssignmentType::UserProject, None))));
    assert!(contains(&res, &with_actor(assignment("2", "target", AssignmentType::UserProject, Some("1")))));
    assert!(contains(&res, &with_actor(assignment("1", "system", AssignmentType::UserSystem, None))));
    assert!(contains(&res, &with_actor(assignment("2", "system", AssignmentType::UserSystem, Some("1")))));
}

#[test]
fn test_list_for_multiple_actor_targets_multiple_actors_single_target() {
    let p = params(
        &["uid1", "gid1", "gid2"],
        vec![target("pid1", RoleAssignmentTargetType::Project, None)],
        Some("rid"),
        false,
    );
    let q = table_query_for(&p, false).unwrap();
    assert_eq!(q.actors, vec!["uid1", "gid1", "gid2"]);
    assert_eq!(q.role_id.as_deref(), Some("rid"));
    assert_eq!(q.targets.len(), 1);
    assert_eq!(q.targets[0].id, "pid1");
    assert!(table_query_for(&p, true).is_none());

    let p = params(
        &["uid1", "gid1", "gid2"],
        vec![target("system", RoleAssignmentTargetType::System, None)],
        Some("rid"),
        false,
    );
    assert!(table_query_for(&p, false).is_none());
    let q = table_query_for(&p, true).unwrap();
    assert_eq!(q.targets.len(), 1);
    assert_eq!(q.targets[0].id, "system");
}

#[test]
fn test_list_for_multiple_actor_targets_multiple_complex_targets() {
    let p = params(
        &["uid1", "gid1", "gid2"],
        vec![
            target("pid1", RoleAssignmentTargetType::Project, None),
            target("pid2", RoleAssignmentTargetType::Project, Some(true)),
        ],
        None,
        false,
    );
    let q = table_query_for(&p, false).unwrap();
    assert_eq!(q.actors.len(), 3);
    assert!(q.role_id.is_none());
    assert_eq!(q.targets.len(), 2);
    assert_eq!((q.targets[0].id.as_str(), q.targets[0].inherited), ("pid1", None));
    assert_eq!((q.targets[1].id.as_str(), q.targets[1].inherited), ("pid2", Some(true)));
    assert!(table_query_for(&p, true).is_none());
}

#[test]
fn test_list_for_multiple_actor_targets_empty_actors_and_targets() {
    let p = params(&[], vec![], None, false);
    let q = table_query_for(&p, false).unwrap();
    assert!(q.actors.is_empty() && q.role_id.is_none() && q.targets.is_empty());
    let q = table_query_for(&p, true).unwrap();
    assert!(q.actors.is_empty() && q.role_id.is_none() && q.targets.is_empty());
}

#[test]
fn test_list_for_multiple_actor_targets_mixed_targets() {
    let p = params(
        &[],
        vec![
            target("pid1", RoleAssignmentTargetType::Project, None),
            target("pid2", RoleAssignmentTargetType::Project, Some(true)),
        ],
        None,
        false,
    );
    let q = table_query_for(&p, false).unwrap();
    assert!(q.actors.is_empty());
    assert_eq!(q.targets.len(), 2);
    assert!(table_query_for(&p, true).is_none());
}

#[test]
fn test_list_for_multiple_actor_targets_complex_targets() {
    let p = params(
        &[],
        vec![
            target("pid1", RoleAssignmentTargetType::Project, Some(false)),
            target("pid2", RoleAssignmentTargetType::Project, Some(true)),
        ],
        None,
        false,
    );
    let q = table_query_for(&p, false).unwrap();
    assert_eq!((q.targets[0].id.as_str(), q.targets[0].inherited), ("pid1", Some(false)));
    assert_eq!((q.targets[1].id.as_str(), q.targets[1].inherited), ("pid2", Some(true)));
}

#[test]
fn rows_are_selected_by_the_query() {
    let mut inherited = role_assignment_row("1");
    inherited.target_id = "pid2".into();
    inherited.inherited = true;
    let mut direct = role_assignment_row("1");
    direct.target_id = "pid2".into();
    let mut other_actor = role_assignment_row("1");
    other_actor.actor_id = "someone".into();
    other_actor.target_id = "pid1".into();
    let mut mine = role_assignment_row("1");
    mine.target_id = "pid1".into();
    let rows = vec![inherited, direct, other_actor, mine];
    let p = params(
        &["actor"],
        vec![
            target("pid1", RoleAssignmentTargetType::Project, None),
            target("pid2", RoleAssignmentTargetType::Project, Some(true)),
        ],
        None,
        false,
    );
    let q = table_query_for(&p, false).unwrap();
    let got = select_rows(&q, &rows);
    assert_eq!(got.len(), 2);
    assert!(got[0].same_as(&rows[0]));
    assert!(got[1].same_as(&rows[3]));
    let listed = list_for_multiple_actors_and_targets(&p, &rows, &vec![system_assignment_row("9")]);
    assert_eq!(listed.len(), 2);
}

#[test]
fn implied_roles_are_transitive_and_terminate_on_cycles() {
    let rules = vec![imply("1", "2"), imply("2", "3"), imply("3", "1"), imply("4", "5")];
    let mut got = implied_role_ids(&rules, &"1".to_string());
    got.sort();
    assert_eq!(got, vec!["1", "2", "3"]);
    assert!(implied_role_ids(&rules, &"5".to_string()).is_empty());
    let resolved = resolve_implied_roles(vec![role_assignment_row("4")], &rules);
    assert_eq!(resolved.len(), 2);
    assert!(contains(&resolved, &assignment("5", "target", AssignmentType::UserProject, Some("4"))));
}

#[test]
fn duplicate_assignments_are_merged() {
    let rules = vec![imply("1", "2")];
    let resolved = resolve_implied_roles(
        vec![role_assignment_row("1"), role_assignment_row("1")],
        &rules,
    );
    assert_eq!(resolved.len(), 2);
}

#[test]
fn list_request_covers_groups_and_parents() {
    let mut p = RoleAssignmentListParameters::empty();
    p.user_id = Some("uid".into());
    p.project_id = Some("pid".into());
    p.effective = Some(true);
    p.role_id = Some("rid".into());
    p.resolve_implied_roles = true;
    let (groups_of, parents_of) = assignment_list_lookups(&p);
    assert_eq!(groups_of.as_deref(), Some("uid"));
    assert_eq!(parents_of.as_deref(), Some("pid"));
    let req = multiple_actor_target_request(
        &p,
        vec!["g1".into(), "g2".into()],
        Some(vec!["parent".into()]),
    );
    assert_eq!(req.actors, vec!["uid", "g1", "g2"]);
    assert_eq!(req.targets.len(), 2);
    assert_eq!((req.targets[0].id.as_str(), req.targets[0].inherited), ("pid", Some(false)));
    assert_eq!((req.targets[1].id.as_str(), req.targets[1].inherited), ("parent", Some(true)));
    assert_eq!(req.role_id.as_deref(), Some("rid"));
    assert!(req.resolve_implied_roles);

    let mut p = RoleAssignmentListParameters::empty();
    p.user_id = Some("uid".into());
    p.system_id = Some("all".into());
    let (groups_of, _) = assignment_list_lookups(&p);
    assert!(groups_of.is_none());
    let req = multiple_actor_target_request(&p, vec!["ignored".into()], None);
    assert_eq!(req.actors, vec!["uid"]);
    assert_eq!(req.targets.len(), 1);
    assert_eq!(req.targets[0].target_type, RoleAssignmentTargetType::System);
}

fn role(id: &str, name: &str) -> Role {
    Role {
        description: None,
        domain_id: None,
        id: id.into(),
        name: name.into(),
    }
}

#[test]
fn role_names_are_filled() {
    let roles = vec![role("1", "reader"), role("2", "writer"), role("1", "reader2")];
    let named = fill_role_names(vec![role_assignment_row("1"), role_assignment_row("3")], &roles);
    assert_eq!(named[0].role_name.as_deref(), Some("reader2"));
    assert_eq!(named[1].role_name, None);

    let mut p = RoleAssignmentListParameters::empty();
    assert!(!needs_role_names(&vec![role_assignment_row("1")], &p));
    p.include_names = Some(true);
    assert!(needs_role_names(&vec![role_assignment_row("1")], &p));
    assert!(!needs_role_names(&vec![], &p));
    let out = with_role_names(&p, vec![role_assignment_row("2")], &roles);
    assert_eq!(out[0].role_name.as_deref(), Some("writer"));
}

#[test]
fn revocation_event_by_assignment_type() {
    let e = revocation_event_for(&assignment("r", "pid", AssignmentType::UserProject, None), 42);
    assert_eq!(e.user_id.as_deref(), Some("actor"));
    assert_eq!(e.project_id.as_deref(), Some("pid"));
    assert_eq!(e.domain_id, None);
    assert_eq!(e.role_id.as_deref(), Some("r"));
    assert_eq!((e.issued_before, e.revoked_at), (42, 42));
    let e = revocation_event_for(&assignment("r", "did", AssignmentType::GroupDomain, None), 1);
    assert_eq!(e.user_id, None);
    assert_eq!(e.domain_id.as_deref(), Some("did"));
    assert_eq!(e.project_id, None);
    let e = revocation_event_for(&assignment("r", "all", AssignmentType::UserSystem, None), 1);
    assert_eq!(e.user_id.as_deref(), Some("actor"));
    assert_eq!((e.project_id, e.domain_id), (None, None));
}

#[test]
fn test_list_assignments() {
    let mut p = RoleAssignmentListParameters::empty();
    p.role_id = Some("rid".into());
    p.resolve_implied_roles = false;
    let out = with_role_names(&p, vec![], &vec![]);
    assert!(out.is_empty());
}

#[test]
fn test_list_assignments_include_names() {
    let roles = vec![role("rid1", "rid1_name"), role("rid2", "rid2_name")];
    let mut p = RoleAssignmentListParameters::empty();
    p.role_id = Some("rid".into());
    p.include_names = Some(true);
    p.resolve_implied_roles = false;
    let rows = vec![assignment("rid1", "target_id", AssignmentType::UserProject, None)];
    assert!(needs_role_names(&rows, &p));
    let res = with_role_names(&p, rows, &roles);
    assert!(res
        .iter()
        .find(|x| x.role_id == "rid1" && x.role_name == Some("rid1_name".into()))
        .is_some());
}

#[test]
fn test_revoke_grant() {
    let grant = assignment("rid1", "target_id", AssignmentType::UserProject, None);
    let params = revocation_event_for(&grant, 0);
    assert_eq!(params.project_id, Some("target_id".into()));
    assert_eq!(params.user_id, Some("actor".into()));
    assert_eq!(params.role_id, Some("rid1".into()));
}
