//! The assignment backend's logic: the transitive closure of role implies
//! and the implied assignments it adds, the row conditions of the assignment
//! queries, and the request a role assignment listing makes.
use vstd::prelude::*;
use vstd::set_lib::lemma_len_subset;
use crate::assignment::{
    assignment_views, Assignment, AssignmentView, RoleAssignmentListForMultipleActorTargetParameters,
    RoleAssignmentListParameters, RoleAssignmentTarget, RoleAssignmentTargetType,
};
use crate::role::RoleImply;
use crate::util::{contains_string, strs};

verus! {

/// The edges of the role imply rules: (prior role id, implied role id).
pub open spec fn imply_edges(rules: Seq<RoleImply>) -> Seq<(Seq<char>, Seq<char>)> {
    rules.map_values(|r: RoleImply| (r.prior_role.id@, r.implied_role.id@))
}

/// Whether a rule says that `x` implies `y`.
pub open spec fn has_edge(edges: Seq<(Seq<char>, Seq<char>)>, x: Seq<char>, y: Seq<char>) -> bool {
    exists|i: int| 0 <= i < edges.len() && #[trigger] edges[i] == (x, y)
}

/// Whether `p` is a chain of at least one rule.
pub open spec fn is_chain(edges: Seq<(Seq<char>, Seq<char>)>, p: Seq<Seq<char>>) -> bool {
    &&& p.len() >= 2
    &&& forall|i: int| 0 <= i < p.len() - 1 ==> has_edge(edges, #[trigger] p[i], p[i + 1])
}

/// Whether role `a` implies role `b`, directly or through other roles.
pub open spec fn implies(edges: Seq<(Seq<char>, Seq<char>)>, a: Seq<char>, b: Seq<char>) -> bool {
    exists|p: Seq<Seq<char>>| #[trigger] is_chain(edges, p) && p[0] == a && p.last() == b
}

/// Whether `s` holds every role that a rule derives from `a` or from a
/// member of `s`.
pub open spec fn closed_under(edges: Seq<(Seq<char>, Seq<char>)>, a: Seq<char>, s: Seq<Seq<char>>) -> bool {
    forall|i: int|
        0 <= i < edges.len() ==> ((#[trigger] edges[i]).0 == a || s.contains(edges[i].0))
            ==> s.contains(edges[i].1)
}

/// The implied roles of a rule chain's end lie in every set closed under
/// the rules.
proof fn lemma_closed_contains_chain_end(
    edges: Seq<(Seq<char>, Seq<char>)>,
    a: Seq<char>,
    s: Seq<Seq<char>>,
    p: Seq<Seq<char>>,
)
    requires
        closed_under(edges, a, s),
        is_chain(edges, p),
        p[0] == a,
    ensures
        s.contains(p.last()),
    decreases p.len(),
{
    let n = p.len() as int;
    assert(has_edge(edges, p[n - 2], p[n - 1]));
    let i = choose|i: int| 0 <= i < edges.len() && #[trigger] edges[i] == (p[n - 2], p[n - 1]);
    if n == 2 {
        assert(edges[i].0 == a);
    } else {
        let q = p.drop_last();
        assert forall|j: int| 0 <= j < q.len() - 1 implies has_edge(edges, #[trigger] q[j], q[j + 1]) by {
            assert(q[j] == p[j] && q[j + 1] == p[j + 1]);
            assert(has_edge(edges, p[j], p[j + 1]));
        }
        lemma_closed_contains_chain_end(edges, a, s, q);
        assert(q.last() == p[n - 2]);
    }
}

/// Extending a chain to `a`'s implied role `x` by a rule from `x` gives a
/// chain.
proof fn lemma_chain_extend(
    edges: Seq<(Seq<char>, Seq<char>)>,
    a: Seq<char>,
    x: Seq<char>,
    y: Seq<char>,
)
    requires
        implies(edges, a, x) || x == a,
        has_edge(edges, x, y),
    ensures
        implies(edges, a, y),
{
    if implies(edges, a, x) {
        let p = choose|p: Seq<Seq<char>>| #[trigger] is_chain(edges, p) && p[0] == a && p.last() == x;
        let q = p.push(y);
        assert forall|j: int| 0 <= j < q.len() - 1 implies has_edge(edges, #[trigger] q[j], q[j + 1]) by {
            if j < p.len() - 1 {
                assert(q[j] == p[j] && q[j + 1] == p[j + 1]);
                assert(has_edge(edges, p[j], p[j + 1]));
            } else {
                assert(q[j] == x && q[j + 1] == y);
            }
        }
        assert(is_chain(edges, q));
    } else {
        let q = seq![a, y];
        assert(q[0] == a && q[1] == y);
        assert(is_chain(edges, q));
    }
}

/// Implication is transitive: a role implied by a role that `a` implies is
/// implied by `a`.
pub proof fn lemma_implies_transitive(
    edges: Seq<(Seq<char>, Seq<char>)>,
    a: Seq<char>,
    b: Seq<char>,
    c: Seq<char>,
)
    requires
        implies(edges, a, b),
        implies(edges, b, c),
    ensures
        implies(edges, a, c),
{
    let p = choose|p: Seq<Seq<char>>| #[trigger] is_chain(edges, p) && p[0] == a && p.last() == b;
    let q = choose|q: Seq<Seq<char>>| #[trigger] is_chain(edges, q) && q[0] == b && q.last() == c;
    let r = p + q.drop_first();
    assert forall|j: int| 0 <= j < r.len() - 1 implies has_edge(edges, #[trigger] r[j], r[j + 1]) by {
        if j < p.len() - 1 {
            assert(r[j] == p[j] && r[j + 1] == p[j + 1]);
            assert(has_edge(edges, p[j], p[j + 1]));
        } else {
            let k = j - (p.len() - 1);
            assert(r[j] == q[k]);
            assert(r[j + 1] == q[k + 1]);
            assert(has_edge(edges, q[k], q[k + 1]));
        }
    }
    assert(r[0] == a);
    assert(r.last() == c);
    assert(is_chain(edges, r));
}

/// A list without repeats drawn from `t` is no longer than `t`.
proof fn lemma_unique_within_len(s: Seq<Seq<char>>, t: Seq<Seq<char>>)
    requires
        s.no_duplicates(),
        forall|k: int| 0 <= k < s.len() ==> t.contains(#[trigger] s[k]),
    ensures
        s.len() <= t.len(),
{
    s.unique_seq_to_set();
    t.lemma_cardinality_of_set();
    assert(s.to_set().subset_of(t.to_set())) by {
        assert forall|x: Seq<char>| s.to_set().contains(x) implies t.to_set().contains(x) by {
            let k = choose|k: int| 0 <= k < s.len() && s[k] == x;
            assert(t.contains(s[k]));
        }
    }
    lemma_len_subset(s.to_set(), t.to_set());
}

/// The implied role ids of the rules.
pub open spec fn edge_targets(edges: Seq<(Seq<char>, Seq<char>)>) -> Seq<Seq<char>> {
    edges.map_values(|e: (Seq<char>, Seq<char>)| e.1)
}

/// The ids of all roles that `role_id` implies, directly or through other
/// roles, each once.
pub fn implied_role_ids(rules: &Vec<RoleImply>, role_id: &String) -> (res: Vec<String>)
    ensures
        strs(res@).no_duplicates(),
        forall|r: Seq<char>| strs(res@).contains(r) <==> implies(imply_edges(rules@), role_id@, r),
{
    let ghost edges = imply_edges(rules@);
    let ghost a = role_id@;
    let mut res: Vec<String> = Vec::new();
    let mut changed = true;
    while changed
        invariant
            edges == imply_edges(rules@),
            a == role_id@,
            strs(res@).no_duplicates(),
            forall|k: int| 0 <= k < res@.len() ==> implies(edges, a, #[trigger] strs(res@)[k]),
            forall|k: int| 0 <= k < res@.len() ==> edge_targets(edges).contains(
                #[trigger] strs(res@)[k],
            ),
            res@.len() <= edges.len(),
            !changed ==> closed_under(edges, a, strs(res@)),
        decreases 2 * (edges.len() - res@.len()) + (if changed { 1int } else { 0int }),
    {
        changed = false;
        let ghost start = res@;
        let mut i: usize = 0;
        while i < rules.len()
            invariant
                edges == imply_edges(rules@),
                a == role_id@,
                i <= rules@.len(),
                strs(res@).no_duplicates(),
                forall|k: int| 0 <= k < res@.len() ==> implies(edges, a, #[trigger] strs(res@)[k]),
                forall|k: int| 0 <= k < res@.len() ==> edge_targets(edges).contains(
                    #[trigger] strs(res@)[k],
                ),
                res@.len() <= edges.len(),
                changed ==> res@.len() > start.len(),
                !changed ==> res@ == start,
                !changed ==> forall|j: int|
                    0 <= j < i ==> ((#[trigger] edges[j]).0 == a || strs(res@).contains(
                        edges[j].0,
                    )) ==> strs(res@).contains(edges[j].1),
                res@.len() >= start.len(),
            decreases rules@.len() - i,
        {
            let prior = &rules[i].prior_role.id;
            let implied = &rules[i].implied_role.id;
            assert(edges[i as int] == (prior@, implied@));
            let from_here = *prior == *role_id || contains_string(&res, prior);
            if from_here && !contains_string(&res, implied) {
                let ghost before = strs(res@);
                proof {
                    assert(has_edge(edges, prior@, implied@));
                    if prior@ != a {
                        let k = choose|k: int| 0 <= k < before.len() && before[k] == prior@;
                        assert(implies(edges, a, strs(res@)[k]));
                    }
                    lemma_chain_extend(edges, a, prior@, implied@);
                    assert(edge_targets(edges)[i as int] == implied@);
                }
                res.push(implied.clone());
                assert(strs(res@) =~= before.push(implied@));
                proof {
                    assert forall|k: int| 0 <= k < res@.len() implies edge_targets(edges).contains(
                        #[trigger] strs(res@)[k],
                    ) by {
                        if k < before.len() {
                            assert(strs(res@)[k] == before[k]);
                        }
                    }
                    lemma_unique_within_len(strs(res@), edge_targets(edges));
                }
                changed = true;
            }
            i += 1;
        }
    }
    proof {
        assert forall|r: Seq<char>| strs(res@).contains(r) <==> implies(edges, a, r) by {
            if implies(edges, a, r) {
                let p = choose|p: Seq<Seq<char>>| #[trigger] is_chain(edges, p) && p[0] == a && p.last() == r;
                lemma_closed_contains_chain_end(edges, a, strs(res@), p);
            }
            if strs(res@).contains(r) {
                let k = choose|k: int| 0 <= k < strs(res@).len() && strs(res@)[k] == r;
                assert(implies(edges, a, strs(res@)[k]));
            }
        }
    }
    res
}

/// The assignment that `a` implies through its role implying `role_id`.
pub open spec fn implied_assignment(a: AssignmentView, role_id: Seq<char>) -> AssignmentView {
    AssignmentView { role_id, implied_via: Some(a.role_id), ..a }
}

/// Whether `x` belongs to the resolution of `input`: one of the input
/// assignments, or an assignment one of them implies.
pub open spec fn in_resolution(
    edges: Seq<(Seq<char>, Seq<char>)>,
    input: Seq<AssignmentView>,
    x: AssignmentView,
) -> bool {
    exists|k: int|
        0 <= k < input.len() && (x == #[trigger] input[k] || (implies(
            edges,
            input[k].role_id,
            x.role_id,
        ) && x == implied_assignment(input[k], x.role_id)))
}

/// Appends an assignment unless one with the same content is present.
pub fn push_unique_assignment(v: &mut Vec<Assignment>, a: Assignment)
    requires
        assignment_views(old(v)@).no_duplicates(),
    ensures
        assignment_views(final(v)@).no_duplicates(),
        forall|x: AssignmentView|
            assignment_views(final(v)@).contains(x) <==> (assignment_views(old(v)@).contains(x)
                || x == a@),
{
    let ghost before = assignment_views(v@);
    let mut i: usize = 0;
    while i < v.len()
        invariant
            before == assignment_views(v@),
            before == assignment_views(old(v)@),
            before.no_duplicates(),
            v@ == old(v)@,
            i <= v@.len(),
            forall|j: int| 0 <= j < i ==> before[j] != a@,
        decreases v@.len() - i,
    {
        if v[i].same_as(&a) {
            assert(before[i as int] == a@);
            assert(before.contains(a@));
            return;
        }
        i += 1;
    }
    let ghost av = a@;
    v.push(a);
    assert(assignment_views(v@) =~= before.push(av));
    assert forall|x: AssignmentView|
        #[trigger] assignment_views(v@).contains(x) <==> (before.contains(x) || x == av) by {
        if before.push(av).contains(x) {
            let k = choose|k: int| 0 <= k < before.push(av).len() && before.push(av)[k] == x;
            if k < before.len() {
                assert(before[k] == x);
            }
        }
        if before.contains(x) {
            let k = choose|k: int| 0 <= k < before.len() && before[k] == x;
            assert(before.push(av)[k] == x);
        }
        if x == av {
            assert(before.push(av)[before.len() as int] == x);
        }
    }
}

/// The role assignments together with all the assignments they imply: for
/// each assignment and each role its role implies, a copy with that role
/// that records the implying role. Each comes once.
pub fn resolve_implied_roles(assignments: Vec<Assignment>, rules: &Vec<RoleImply>) -> (res: Vec<
    Assignment,
>)
    ensures
        assignment_views(res@).no_duplicates(),
        forall|x: AssignmentView|
            assignment_views(res@).contains(x) <==> in_resolution(
                imply_edges(rules@),
                assignment_views(assignments@),
                x,
            ),
{
    let ghost edges = imply_edges(rules@);
    let ghost input = assignment_views(assignments@);
    let mut res: Vec<Assignment> = Vec::new();
    let mut i: usize = 0;
    while i < assignments.len()
        invariant
            edges == imply_edges(rules@),
            input == assignment_views(assignments@),
            i <= assignments@.len(),
            assignment_views(res@).no_duplicates(),
            forall|x: AssignmentView|
                assignment_views(res@).contains(x) <==> in_resolution(
                    edges,
                    input.subrange(0, i as int),
                    x,
                ),
        decreases assignments@.len() - i,
    {
        let a = &assignments[i];
        let ghost av = a@;
        assert(input[i as int] == av);
        let ghost prefix = input.subrange(0, i as int);
        let ghost next = input.subrange(0, i + 1);
        assert(next =~= prefix.push(av));
        push_unique_assignment(&mut res, a.clone());
        let implied = implied_role_ids(rules, &a.role_id);
        let mut j: usize = 0;
        while j < implied.len()
            invariant
                edges == imply_edges(rules@),
                a@ == av,
                j <= implied@.len(),
                assignment_views(res@).no_duplicates(),
                forall|r: Seq<char>| strs(implied@).contains(r) <==> implies(edges, av.role_id, r),
                forall|x: AssignmentView|
                    assignment_views(res@).contains(x) <==> (in_resolution(edges, prefix, x) || x
                        == av || exists|m: int|
                        0 <= m < j && x == implied_assignment(av, #[trigger] strs(implied@)[m])),
            decreases implied@.len() - j,
        {
            let mut copy = a.clone();
            copy.role_id = implied[j].clone();
            copy.implied_via = Some(a.role_id.clone());
            assert(copy@.role_id == strs(implied@)[j as int]);
            assert(copy@.implied_via == Some(av.role_id));
            assert(copy@ == implied_assignment(av, strs(implied@)[j as int]));
            let ghost cv = copy@;
            let ghost old_res = assignment_views(res@);
            assert(forall|x: AssignmentView|
                #[trigger] old_res.contains(x) <==> (in_resolution(edges, prefix, x) || x == av
                    || exists|m: int|
                    0 <= m < j && x == implied_assignment(av, #[trigger] strs(implied@)[m])));
            push_unique_assignment(&mut res, copy);
            proof {
                assert forall|x: AssignmentView|
                    assignment_views(res@).contains(x) <==> (in_resolution(edges, prefix, x) || x
                        == av || exists|m: int|
                        0 <= m < j + 1 && x == implied_assignment(av, #[trigger] strs(implied@)[m])) by {
                    if exists|m: int| 0 <= m < j + 1 && x == implied_assignment(av, #[trigger] strs(implied@)[m]) {
                        let m = choose|m: int| 0 <= m < j + 1 && x == implied_assignment(av, #[trigger] strs(implied@)[m]);
                        if m < j {
                            assert(exists|m2: int| 0 <= m2 < j && x == implied_assignment(av, #[trigger] strs(implied@)[m2]));
                            assert(old_res.contains(x));
                        } else {
                            assert(x == cv);
                        }
                    }
                    if assignment_views(res@).contains(x) {
                        if old_res.contains(x) {
                            if exists|m: int| 0 <= m < j && x == implied_assignment(av, #[trigger] strs(implied@)[m]) {
                                let m = choose|m: int| 0 <= m < j && x == implied_assignment(av, #[trigger] strs(implied@)[m]);
                                assert(0 <= m < j + 1 && x == implied_assignment(av, strs(implied@)[m]));
                            }
                        } else {
                            assert(x == cv);
                            assert(x == implied_assignment(av, strs(implied@)[j as int]));
                        }
                    }
                }
            }
            j += 1;
        }
        proof {
            assert forall|x: AssignmentView|
                assignment_views(res@).contains(x) <==> in_resolution(edges, next, x) by {
                if in_resolution(edges, next, x) {
                    let k = choose|k: int|
                        0 <= k < next.len() && (x == #[trigger] next[k] || (implies(
                            edges,
                            next[k].role_id,
                            x.role_id,
                        ) && x == implied_assignment(next[k], x.role_id)));
                    if k < prefix.len() {
                        assert(prefix[k] == next[k]);
                        assert(in_resolution(edges, prefix, x));
                    } else if x != av {
                        assert(strs(implied@).contains(x.role_id));
                        let m = choose|m: int| 0 <= m < strs(implied@).len() && strs(implied@)[m] == x.role_id;
                        assert(x == implied_assignment(av, strs(implied@)[m]));
                    }
                }
                if assignment_views(res@).contains(x) {
                    if in_resolution(edges, prefix, x) {
                        let k = choose|k: int|
                            0 <= k < prefix.len() && (x == #[trigger] prefix[k] || (implies(
                                edges,
                                prefix[k].role_id,
                                x.role_id,
                            ) && x == implied_assignment(prefix[k], x.role_id)));
                        assert(next[k] == prefix[k]);
                    } else if x == av {
                        assert(next[i as int] == av);
                    } else {
                        let m = choose|m: int| 0 <= m < implied@.len() && x == implied_assignment(av, #[trigger] strs(implied@)[m]);
                        assert(strs(implied@).contains(strs(implied@)[m]));
                        assert(next[i as int] == av);
                    }
                }
            }
        }
        i += 1;
    }
    assert(input.subrange(0, assignments@.len() as int) =~= input);
    res
}

/// The content of a role assignment target.
pub struct TargetView {
    pub id: Seq<char>,
    pub target_type: RoleAssignmentTargetType,
    pub inherited: Option<bool>,
}

/// The content of a role assignment target.
pub open spec fn target_view(t: RoleAssignmentTarget) -> TargetView {
    TargetView { id: t.id@, target_type: t.target_type, inherited: t.inherited }
}

/// The contents of a list of targets.
pub open spec fn target_views(v: Seq<RoleAssignmentTarget>) -> Seq<TargetView> {
    v.map_values(|t: RoleAssignmentTarget| target_view(t))
}

/// Whether a target lies in the system assignment table (else in the
/// regular one, for projects and domains).
pub open spec fn is_system_target(t: TargetView) -> bool {
    t.target_type == RoleAssignmentTargetType::System
}

/// The targets of one table: the system ones, or the others.
pub open spec fn targets_for(v: Seq<TargetView>, system: bool) -> Seq<TargetView>
    decreases v.len(),
{
    if v.len() == 0 {
        Seq::<TargetView>::empty()
    } else {
        let init = targets_for(v.drop_last(), system);
        if is_system_target(v.last()) == system {
            init.push(v.last())
        } else {
            init
        }
    }
}

/// The conditions of a query on one assignment table. An empty list of
/// actors or targets sets no condition.
pub struct TableQuery {
    /// The actor must be one of these.
    pub actors: Vec<String>,
    /// The role must be this one.
    pub role_id: Option<String>,
    /// The assignment must be on one of these targets (with the given
    /// inherited flag, where one is given).
    pub targets: Vec<RoleAssignmentTarget>,
}

/// The content of a [`TableQuery`].
pub struct TableQueryView {
    pub actors: Seq<Seq<char>>,
    pub role_id: Option<Seq<char>>,
    pub targets: Seq<TargetView>,
}

impl View for TableQuery {
    type V = TableQueryView;

    open spec fn view(&self) -> TableQueryView {
        TableQueryView {
            actors: strs(self.actors@),
            role_id: crate::util::opt_str(self.role_id),
            targets: target_views(self.targets@),
        }
    }
}

/// The query of one table for the listing parameters: `None` when targets
/// are given but none of them lies in that table.
pub open spec fn table_query(
    p: RoleAssignmentListForMultipleActorTargetParameters,
    system: bool,
) -> Option<TableQueryView> {
    let targets = targets_for(target_views(p.targets@), system);
    if p.targets@.len() > 0 && targets.len() == 0 {
        None
    } else {
        Some(
            TableQueryView {
                actors: strs(p.actors@),
                role_id: crate::util::opt_str(p.role_id),
                targets,
            },
        )
    }
}

fn clone_target(t: &RoleAssignmentTarget) -> (res: RoleAssignmentTarget)
    ensures
        target_view(res) == target_view(*t),
{
    RoleAssignmentTarget { id: t.id.clone(), target_type: t.target_type, inherited: t.inherited }
}

/// The query of the regular (`system == false`) or the system assignment
/// table for the listing parameters.
pub fn table_query_for(
    params: &RoleAssignmentListForMultipleActorTargetParameters,
    system: bool,
) -> (res: Option<TableQuery>)
    ensures
        match res {
            Some(q) => table_query(*params, system) == Some(q@),
            None => table_query(*params, system) is None,
        },
{
    let ghost all = target_views(params.targets@);
    let mut targets: Vec<RoleAssignmentTarget> = Vec::new();
    let mut i: usize = 0;
    while i < params.targets.len()
        invariant
            all == target_views(params.targets@),
            i <= params.targets@.len(),
            target_views(targets@) == targets_for(all.subrange(0, i as int), system),
        decreases params.targets@.len() - i,
    {
        let t = &params.targets[i];
        assert(all.subrange(0, i + 1).drop_last() =~= all.subrange(0, i as int));
        assert(all.subrange(0, i + 1).last() == target_view(*t));
        let in_system = match t.target_type {
            RoleAssignmentTargetType::System => true,
            _ => false,
        };
        if in_system == system {
            let ghost before = target_views(targets@);
            targets.push(clone_target(t));
            assert(target_views(targets@) =~= before.push(target_view(*t)));
        }
        i += 1;
    }
    assert(all.subrange(0, params.targets@.len() as int) =~= all);
    if params.targets.len() > 0 && targets.len() == 0 {
        return None;
    }
    let actors = crate::util::clone_strings(&params.actors);
    Some(TableQuery { actors, role_id: crate::util::clone_opt_string(&params.role_id), targets })
}

/// Whether a row of a table meets the query's conditions.
pub open spec fn row_selected(q: TableQueryView, a: AssignmentView) -> bool {
    &&& (q.actors.len() == 0 || q.actors.contains(a.actor_id))
    &&& (match q.role_id {
        Some(r) => a.role_id == r,
        None => true,
    })
    &&& (q.targets.len() == 0 || exists|i: int|
        0 <= i < q.targets.len() && (#[trigger] q.targets[i]).id == a.target_id && (match q.targets[i].inherited {
            Some(h) => a.inherited == h,
            None => true,
        }))
}

/// The rows of a table that meet the query's conditions, in table order.
pub open spec fn selected_rows(q: TableQueryView, rows: Seq<AssignmentView>) -> Seq<AssignmentView>
    decreases rows.len(),
{
    if rows.len() == 0 {
        Seq::<AssignmentView>::empty()
    } else {
        let init = selected_rows(q, rows.drop_last());
        if row_selected(q, rows.last()) {
            init.push(rows.last())
        } else {
            init
        }
    }
}

#[verifier::loop_isolation(false)]
fn row_matches(q: &TableQuery, a: &Assignment) -> (res: bool)
    ensures
        res == row_selected(q@, a@),
{
    if q.actors.len() > 0 && !contains_string(&q.actors, &a.actor_id) {
        return false;
    }
    match &q.role_id {
        Some(r) => {
            if !(*r == a.role_id) {
                return false;
            }
        },
        None => {},
    }
    if q.targets.len() == 0 {
        return true;
    }
    let mut i: usize = 0;
    while i < q.targets.len()
        invariant
            i <= q.targets@.len(),
            q.targets@.len() > 0,
            forall|j: int|
                0 <= j < i ==> !((#[trigger] q@.targets[j]).id == a@.target_id && (match q@.targets[j].inherited {
                    Some(h) => a@.inherited == h,
                    None => true,
                })),
        decreases q.targets@.len() - i,
    {
        let t = &q.targets[i];
        assert(q@.targets[i as int] == target_view(*t));
        let inherited_ok = match t.inherited {
            Some(h) => a.inherited == h,
            None => true,
        };
        if t.id == a.target_id && inherited_ok {
            assert(q@.targets[i as int].id == a@.target_id);
            return true;
        }
        i += 1;
    }
    false
}

/// The rows of a table that meet the query's conditions, in table order.
pub fn select_rows(q: &TableQuery, rows: &Vec<Assignment>) -> (res: Vec<Assignment>)
    ensures
        assignment_views(res@) == selected_rows(q@, assignment_views(rows@)),
{
    let ghost all = assignment_views(rows@);
    let mut res: Vec<Assignment> = Vec::new();
    let mut i: usize = 0;
    while i < rows.len()
        invariant
            all == assignment_views(rows@),
            i <= rows@.len(),
            assignment_views(res@) == selected_rows(q@, all.subrange(0, i as int)),
        decreases rows@.len() - i,
    {
        assert(all.subrange(0, i + 1).drop_last() =~= all.subrange(0, i as int));
        assert(all.subrange(0, i + 1).last() == rows@[i as int]@);
        if row_matches(q, &rows[i]) {
            let ghost before = assignment_views(res@);
            res.push(rows[i].clone());
            assert(assignment_views(res@) =~= before.push(rows@[i as int]@));
        }
        i += 1;
    }
    assert(all.subrange(0, rows@.len() as int) =~= all);
    res
}

/// The assignments of the regular and the system table that the listing
/// parameters select: a table whose query is `None` contributes nothing.
pub open spec fn listed_assignments(
    p: RoleAssignmentListForMultipleActorTargetParameters,
    regular: Seq<AssignmentView>,
    system: Seq<AssignmentView>,
) -> Seq<AssignmentView> {
    (match table_query(p, false) {
        Some(q) => selected_rows(q, regular),
        None => Seq::<AssignmentView>::empty(),
    }) + (match table_query(p, true) {
        Some(q) => selected_rows(q, system),
        None => Seq::<AssignmentView>::empty(),
    })
}

/// Lists the role assignments of several actors on several targets from the
/// rows of the regular and the system assignment tables: the regular rows
/// first, then the system ones.
pub fn list_for_multiple_actors_and_targets(
    params: &RoleAssignmentListForMultipleActorTargetParameters,
    regular_rows: &Vec<Assignment>,
    system_rows: &Vec<Assignment>,
) -> (res: Vec<Assignment>)
    ensures
        assignment_views(res@) == listed_assignments(
            *params,
            assignment_views(regular_rows@),
            assignment_views(system_rows@),
        ),
{
    let mut res = match table_query_for(params, false) {
        Some(q) => select_rows(&q, regular_rows),
        None => Vec::new(),
    };
    let mut more = match table_query_for(params, true) {
        Some(q) => select_rows(&q, system_rows),
        None => Vec::new(),
    };
    let ghost first = assignment_views(res@);
    let ghost second = assignment_views(more@);
    res.append(&mut more);
    assert(assignment_views(res@) =~= first + second);
    res
}

/// Lists the role assignments of several actors on several targets and,
/// when asked, adds the assignments their roles imply under `rules`.
pub fn list_assignments_for_multiple_actors_and_targets(
    params: &RoleAssignmentListForMultipleActorTargetParameters,
    regular_rows: &Vec<Assignment>,
    system_rows: &Vec<Assignment>,
    rules: &Vec<RoleImply>,
) -> (res: Vec<Assignment>)
    ensures
        params.resolve_implied_roles ==> (forall|x: AssignmentView|
            assignment_views(res@).contains(x) <==> in_resolution(
                imply_edges(rules@),
                listed_assignments(
                    *params,
                    assignment_views(regular_rows@),
                    assignment_views(system_rows@),
                ),
                x,
            )) && assignment_views(res@).no_duplicates(),
        !params.resolve_implied_roles ==> assignment_views(res@) == listed_assignments(
            *params,
            assignment_views(regular_rows@),
            assignment_views(system_rows@),
        ),
{
    let listed = list_for_multiple_actors_and_targets(params, regular_rows, system_rows);
    if params.resolve_implied_roles {
        resolve_implied_roles(listed, rules)
    } else {
        listed
    }
}

/// What a role assignment listing needs looked up first: the user whose
/// groups count (for effective assignments of a user), and the project whose
/// parents count.
pub fn assignment_list_lookups(params: &RoleAssignmentListParameters) -> (res: (
    Option<String>,
    Option<String>,
))
    ensures
        crate::util::opt_str(res.0) == (if params.effective == Some(true) {
            crate::util::opt_str(params.user_id)
        } else {
            None
        }),
        crate::util::opt_str(res.1) == crate::util::opt_str(params.project_id),
{
    let groups_of = if params.effective == Some(true) {
        crate::util::clone_opt_string(&params.user_id)
    } else {
        None
    };
    (groups_of, crate::util::clone_opt_string(&params.project_id))
}

/// The targets for inherited assignments on the given parent projects.
pub open spec fn parent_targets(ps: Seq<Seq<char>>) -> Seq<TargetView> {
    Seq::new(
        ps.len(),
        |i: int|
            TargetView {
                id: ps[i],
                target_type: RoleAssignmentTargetType::Project,
                inherited: Some(true),
            },
    )
}

/// The targets a role assignment listing covers: the project and, for
/// inherited assignments, its parents; else the domain; else the system.
pub open spec fn listing_targets(p: RoleAssignmentListParameters, parents: Option<Seq<Seq<char>>>) -> Seq<
    TargetView,
> {
    match p.project_id {
        Some(pid) => seq![
            TargetView {
                id: pid@,
                target_type: RoleAssignmentTargetType::Project,
                inherited: Some(false),
            },
        ] + match parents {
            Some(ps) => parent_targets(ps),
            None => Seq::<TargetView>::empty(),
        },
        None => match p.domain_id {
            Some(did) => seq![
                TargetView {
                    id: did@,
                    target_type: RoleAssignmentTargetType::Domain,
                    inherited: Some(false),
                },
            ],
            None => match p.system_id {
                Some(sid) => seq![
                    TargetView {
                        id: sid@,
                        target_type: RoleAssignmentTargetType::System,
                        inherited: Some(false),
                    },
                ],
                None => Seq::<TargetView>::empty(),
            },
        },
    }
}

/// The actors a role assignment listing covers: the user and, for
/// effective assignments, the user's groups.
pub open spec fn listing_actors(p: RoleAssignmentListParameters, groups: Seq<Seq<char>>) -> Seq<
    Seq<char>,
> {
    match p.user_id {
        Some(uid) => seq![uid@] + (if p.effective == Some(true) {
            groups
        } else {
            Seq::<Seq<char>>::empty()
        }),
        None => Seq::<Seq<char>>::empty(),
    }
}

/// The request for several actors and targets that a role assignment
/// listing makes, given the user's groups and the project's parents that
/// [`assignment_list_lookups`] asked for.
pub fn multiple_actor_target_request(
    params: &RoleAssignmentListParameters,
    user_groups: Vec<String>,
    project_parents: Option<Vec<String>>,
) -> (res: RoleAssignmentListForMultipleActorTargetParameters)
    ensures
        strs(res.actors@) == listing_actors(*params, strs(user_groups@)),
        target_views(res.targets@) == listing_targets(
            *params,
            match project_parents {
                Some(ps) => Some(strs(ps@)),
                None => None,
            },
        ),
        crate::util::opt_str(res.role_id) == crate::util::opt_str(params.role_id),
        res.resolve_implied_roles == params.resolve_implied_roles,
{
    let mut actors: Vec<String> = Vec::new();
    match &params.user_id {
        Some(uid) => {
            actors.push(uid.clone());
            if params.effective == Some(true) {
                let ghost first = strs(actors@);
                let mut groups = user_groups;
                let ghost g = strs(groups@);
                actors.append(&mut groups);
                assert(strs(actors@) =~= first + g);
            }
        },
        None => {},
    }
    let mut targets: Vec<RoleAssignmentTarget> = Vec::new();
    match &params.project_id {
        Some(pid) => {
            targets.push(
                RoleAssignmentTarget {
                    id: pid.clone(),
                    target_type: RoleAssignmentTargetType::Project,
                    inherited: Some(false),
                },
            );
            match project_parents {
                Some(parents) => {
                    let mut i: usize = 0;
                    while i < parents.len()
                        invariant
                            i <= parents@.len(),
                            target_views(targets@) == seq![
                                TargetView {
                                    id: pid@,
                                    target_type: RoleAssignmentTargetType::Project,
                                    inherited: Some(false),
                                },
                            ] + parent_targets(strs(parents@).subrange(0, i as int)),
                        decreases parents@.len() - i,
                    {
                        let ghost before = target_views(targets@);
                        targets.push(
                            RoleAssignmentTarget {
                                id: parents[i].clone(),
                                target_type: RoleAssignmentTargetType::Project,
                                inherited: Some(true),
                            },
                        );
                        let ghost added = TargetView {
                            id: parents@[i as int]@,
                            target_type: RoleAssignmentTargetType::Project,
                            inherited: Some(true),
                        };
                        assert(target_views(targets@) =~= before.push(added));
                        assert(parent_targets(strs(parents@).subrange(0, i + 1)) =~= parent_targets(
                            strs(parents@).subrange(0, i as int),
                        ).push(added));
                        assert(target_views(targets@) =~= seq![
                            TargetView {
                                id: pid@,
                                target_type: RoleAssignmentTargetType::Project,
                                inherited: Some(false),
                            },
                        ] + parent_targets(strs(parents@).subrange(0, i + 1)));
                        i += 1;
                    }
                    assert(strs(parents@).subrange(0, parents@.len() as int) =~= strs(parents@));
                },
                None => {
                    assert(target_views(targets@) =~= seq![
                        TargetView {
                            id: pid@,
                            target_type: RoleAssignmentTargetType::Project,
                            inherited: Some(false),
                        },
                    ] + Seq::<TargetView>::empty());
                },
            }
        },
        None => match &params.domain_id {
            Some(did) => {
                targets.push(
                    RoleAssignmentTarget {
                        id: did.clone(),
                        target_type: RoleAssignmentTargetType::Domain,
                        inherited: Some(false),
                    },
                );
            },
            None => match &params.system_id {
                Some(sid) => {
                    targets.push(
                        RoleAssignmentTarget {
                            id: sid.clone(),
                            target_type: RoleAssignmentTargetType::System,
                            inherited: Some(false),
                        },
                    );
                },
                None => {},
            },
        },
    }
    RoleAssignmentListForMultipleActorTargetParameters {
        actors,
        role_id: crate::util::clone_opt_string(&params.role_id),
        targets,
        resolve_implied_roles: params.resolve_implied_roles,
    }
}

/// Every row selected from a table is one of its rows and meets the query.
proof fn lemma_selected_rows_from(q: TableQueryView, rows: Seq<AssignmentView>)
    ensures
        forall|i: int|
            0 <= i < selected_rows(q, rows).len() ==> rows.contains(
                #[trigger] selected_rows(q, rows)[i],
            ) && row_selected(q, selected_rows(q, rows)[i]),
    decreases rows.len(),
{
    if rows.len() > 0 {
        lemma_selected_rows_from(q, rows.drop_last());
        let init = selected_rows(q, rows.drop_last());
        assert forall|i: int| 0 <= i < selected_rows(q, rows).len() implies rows.contains(
            #[trigger] selected_rows(q, rows)[i],
        ) && row_selected(q, selected_rows(q, rows)[i]) by {
            if i < init.len() {
                assert(selected_rows(q, rows)[i] == init[i]);
                let k = choose|k: int| 0 <= k < rows.drop_last().len() && rows.drop_last()[k] == init[i];
                assert(rows[k] == init[i]);
            } else {
                assert(selected_rows(q, rows)[i] == rows.last());
                assert(rows[rows.len() - 1] == rows.last());
            }
        }
    }
}

/// A row of a table that meets the query is selected.
proof fn lemma_selected_rows_complete(q: TableQueryView, rows: Seq<AssignmentView>, x: AssignmentView)
    requires
        rows.contains(x),
        row_selected(q, x),
    ensures
        selected_rows(q, rows).contains(x),
    decreases rows.len(),
{
    let init = selected_rows(q, rows.drop_last());
    if rows.last() == x {
        assert(selected_rows(q, rows) == init.push(x));
        assert(selected_rows(q, rows)[init.len() as int] == x);
    } else {
        let k = choose|k: int| 0 <= k < rows.len() && rows[k] == x;
        assert(k < rows.len() - 1);
        assert(rows.drop_last()[k] == x);
        lemma_selected_rows_complete(q, rows.drop_last(), x);
        let j = choose|j: int| 0 <= j < init.len() && init[j] == x;
        if row_selected(q, rows.last()) {
            assert(selected_rows(q, rows)[j] == x);
        } else {
            assert(selected_rows(q, rows)[j] == x);
        }
    }
}

/// The targets kept for one table are among the given targets.
proof fn lemma_targets_for_from(v: Seq<TargetView>, system: bool)
    ensures
        forall|i: int|
            0 <= i < targets_for(v, system).len() ==> v.contains(#[trigger] targets_for(v, system)[i]),
    decreases v.len(),
{
    if v.len() > 0 {
        lemma_targets_for_from(v.drop_last(), system);
        let init = targets_for(v.drop_last(), system);
        assert forall|i: int| 0 <= i < targets_for(v, system).len() implies v.contains(
            #[trigger] targets_for(v, system)[i],
        ) by {
            if i < init.len() {
                assert(targets_for(v, system)[i] == init[i]);
                let k = choose|k: int| 0 <= k < v.drop_last().len() && v.drop_last()[k] == init[i];
                assert(v[k] == init[i]);
            } else {
                assert(v[v.len() - 1] == v.last());
            }
        }
    }
}

/// What a listing gives: only rows of the two tables; with a role filter,
/// only assignments of that role; with actors given, only assignments of
/// those actors; with targets given, only assignments on one of them (with
/// the requested inheritance, where one is given).
pub proof fn lemma_listing_filters(
    p: RoleAssignmentListForMultipleActorTargetParameters,
    regular: Seq<AssignmentView>,
    system: Seq<AssignmentView>,
    x: AssignmentView,
)
    requires
        listed_assignments(p, regular, system).contains(x),
    ensures
        regular.contains(x) || system.contains(x),
        p.role_id matches Some(r) ==> x.role_id == r@,
        p.actors@.len() > 0 ==> exists|i: int| 0 <= i < p.actors@.len() && p.actors@[i]@ == x.actor_id,
        p.targets@.len() > 0 ==> exists|i: int|
            0 <= i < p.targets@.len() && p.targets@[i].id@ == x.target_id && (match p.targets@[i].inherited {
                Some(h) => x.inherited == h,
                None => true,
            }),
{
    let reg = match table_query(p, false) {
        Some(q) => selected_rows(q, regular),
        None => Seq::<AssignmentView>::empty(),
    };
    let sys = match table_query(p, true) {
        Some(q) => selected_rows(q, system),
        None => Seq::<AssignmentView>::empty(),
    };
    assert(listed_assignments(p, regular, system) == reg + sys);
    let k = choose|k: int| 0 <= k < (reg + sys).len() && (reg + sys)[k] == x;
    let (q, rows, sel) = if k < reg.len() {
        assert(reg[k] == x);
        (table_query(p, false)->0, regular, reg)
    } else {
        assert(sys[k - reg.len()] == x);
        (table_query(p, true)->0, system, sys)
    };
    let j = if k < reg.len() { k } else { k - reg.len() };
    let is_sys = k >= reg.len();
    assert(table_query(p, is_sys) is Some);
    lemma_selected_rows_from(q, rows);
    assert(sel[j] == x);
    assert(rows.contains(x) && row_selected(q, x));
    if p.actors@.len() > 0 {
        assert(q.actors.contains(x.actor_id));
        let i = choose|i: int| 0 <= i < q.actors.len() && q.actors[i] == x.actor_id;
        assert(p.actors@[i]@ == x.actor_id);
    }
    if p.targets@.len() > 0 {
        let all = target_views(p.targets@);
        assert(q.targets == targets_for(all, is_sys));
        assert(q.targets.len() > 0);
        let i = choose|i: int|
            0 <= i < q.targets.len() && (#[trigger] q.targets[i]).id == x.target_id && (match q.targets[i].inherited {
                Some(h) => x.inherited == h,
                None => true,
            });
        lemma_targets_for_from(all, is_sys);
        assert(all.contains(q.targets[i]));
        let m = choose|m: int| 0 <= m < all.len() && all[m] == q.targets[i];
        assert(all[m] == target_view(p.targets@[m]));
    }
}

/// A listing without targets gives every row of the two tables of one of
/// the actors (any actor, when none are given) and of the filtered role
/// (any role, without a filter).
pub proof fn lemma_listing_without_targets_complete(
    p: RoleAssignmentListForMultipleActorTargetParameters,
    regular: Seq<AssignmentView>,
    system: Seq<AssignmentView>,
    x: AssignmentView,
)
    requires
        p.targets@.len() == 0,
        regular.contains(x) || system.contains(x),
        p.role_id matches Some(r) ==> x.role_id == r@,
        p.actors@.len() > 0 ==> exists|i: int| 0 <= i < p.actors@.len() && p.actors@[i]@ == x.actor_id,
    ensures
        listed_assignments(p, regular, system).contains(x),
{
    let all = target_views(p.targets@);
    assert(all.len() == 0);
    assert(targets_for(all, false).len() == 0);
    assert(targets_for(all, true).len() == 0);
    let qr = table_query(p, false)->0;
    let qs = table_query(p, true)->0;
    if p.actors@.len() > 0 {
        let i = choose|i: int| 0 <= i < p.actors@.len() && p.actors@[i]@ == x.actor_id;
        assert(strs(p.actors@)[i] == x.actor_id);
        assert(qr.actors.contains(x.actor_id));
    }
    assert(row_selected(qr, x));
    assert(row_selected(qs, x));
    let reg = selected_rows(qr, regular);
    let sys = selected_rows(qs, system);
    assert(listed_assignments(p, regular, system) == reg + sys);
    if regular.contains(x) {
        lemma_selected_rows_complete(qr, regular, x);
        let j = choose|j: int| 0 <= j < reg.len() && reg[j] == x;
        assert((reg + sys)[j] == x);
    } else {
        lemma_selected_rows_complete(qs, system, x);
        let j = choose|j: int| 0 <= j < sys.len() && sys[j] == x;
        assert((reg + sys)[reg.len() + j] == x);
    }
}

/// Who and what a role assignment listing covers. Actors: the user, then,
/// for effective assignments, each of the user's groups; no actor without a
/// user. Targets: the project (direct assignments only) and each of its
/// parents (inherited assignments only); else the domain; else the system;
/// else none.
pub proof fn lemma_listing_request_covers(
    p: RoleAssignmentListParameters,
    groups: Seq<Seq<char>>,
    parents: Option<Seq<Seq<char>>>,
)
    ensures
        ({
            let actors = listing_actors(p, groups);
            &&& (p.user_id matches Some(u) ==> actors.len() > 0 && actors[0] == u@)
            &&& (p.user_id is Some && p.effective == Some(true) ==> actors.len() == groups.len() + 1
                && forall|i: int| 0 <= i < groups.len() ==> actors[i + 1] == groups[i])
            &&& (p.user_id is Some && p.effective != Some(true) ==> actors.len() == 1)
            &&& (p.user_id is None ==> actors.len() == 0)
        }),
        ({
            let targets = listing_targets(p, parents);
            &&& (p.project_id matches Some(pid) ==> {
                &&& targets.len() > 0
                &&& targets[0] == TargetView {
                    id: pid@,
                    target_type: RoleAssignmentTargetType::Project,
                    inherited: Some(false),
                }
                &&& targets.len() == 1 + (match parents {
                    Some(ps) => ps.len(),
                    None => 0,
                })
                &&& (parents matches Some(ps) ==> forall|i: int|
                    0 <= i < ps.len() ==> targets[i + 1] == TargetView {
                        id: ps[i],
                        target_type: RoleAssignmentTargetType::Project,
                        inherited: Some(true),
                    })
            })
            &&& (p.project_id is None && p.domain_id is Some ==> targets == seq![
                TargetView {
                    id: p.domain_id->0@,
                    target_type: RoleAssignmentTargetType::Domain,
                    inherited: Some(false),
                },
            ])
            &&& (p.project_id is None && p.domain_id is None && p.system_id is Some ==> targets
                == seq![
                TargetView {
                    id: p.system_id->0@,
                    target_type: RoleAssignmentTargetType::System,
                    inherited: Some(false),
                },
            ])
            &&& (p.project_id is None && p.domain_id is None && p.system_id is None ==> targets.len()
                == 0)
        }),
{
    if let Some(pid) = p.project_id {
        if let Some(ps) = parents {
            let targets = listing_targets(p, parents);
            assert forall|i: int| 0 <= i < ps.len() implies targets[i + 1] == TargetView {
                id: ps[i],
                target_type: RoleAssignmentTargetType::Project,
                inherited: Some(true),
            } by {
                assert(parent_targets(ps)[i] == targets[i + 1]);
            }
        }
    }
}

} // verus!
