//! Role-based access control: group rules form hierarchies of subjects, objects and
//! actions, and permission rules grant a subject an action on an object under
//! extended conditions.
use vstd::prelude::*;
use petgraph::stable_graph::StableGraph;
use petgraph::Directed;
use crate::graph::{
    graph_add_edge, graph_add_node, graph_bfs, graph_clone, graph_edge_count, graph_edges, graph_new, graph_node_weight,
    graph_dense, graph_nodes, is_path, reachable,
};
use crate::policy::{
    clock_reading, verify_extend_policy_at, verify_spec, utc_now, ExtendPolicyReq, PolicyErrorKind,
    PolicyParseError, Timestamp,
};
use crate::text::{chars_to_string, push_all, str_chars, str_eq_chars};
use crate::models::{new_id, now_millis};

verus! {

broadcast use vstd::string::group_string_axioms;

/// A rule of the access-control model.
/// - `ptype`: `p` for a permission, `g1`/`g2`/`g3` for subject/object/action groups.
/// - In a group rule, `v0` is the member and `v1` the group.
/// - In a permission, `v0` is the subject, `v1` the object, `v2` the action and
///   `v3` the extended policy text.
#[derive(Debug)]
pub struct CasbinRule {
    pub id: String,
    pub ptype: String,
    pub v0: String,
    pub v1: String,
    pub v2: Option<String>,
    pub v3: String,
    pub v4: String,
    pub v5: String,
    pub updated_by: String,
    pub updated_at: i64,
}

impl CasbinRule {
    /// A rule with a fresh id, stamped with the current time.
    pub fn new(
        ptype: String,
        v0: String,
        v1: String,
        v2: Option<String>,
        v3: String,
        v4: String,
        v5: String,
        updated_by: String,
    ) -> (r: Self)
        ensures
            spec_parse_uuid(r.id@) is Some,
            r.ptype == ptype,
            r.v0 == v0,
            r.v1 == v1,
            r.v2 == v2,
            r.v3 == v3,
            r.v4 == v4,
            r.v5 == v5,
            r.updated_by == updated_by,
    {
        CasbinRule {
            id: new_id(),
            ptype,
            v0,
            v1,
            v2,
            v3,
            v4,
            v5,
            updated_by,
            updated_at: now_millis(),
        }
    }

    /// A copy of the rule.
    pub fn duplicate(&self) -> (r: Self)
        ensures
            r == *self,
    {
        CasbinRule {
            id: self.id.clone(),
            ptype: self.ptype.clone(),
            v0: self.v0.clone(),
            v1: self.v1.clone(),
            v2: match &self.v2 {
                Some(a) => Some(a.clone()),
                None => None,
            },
            v3: self.v3.clone(),
            v4: self.v4.clone(),
            v5: self.v5.clone(),
            updated_by: self.updated_by.clone(),
            updated_at: self.updated_at,
        }
    }
}

/// The name of a group (`g1`, `g2`, `g3`) or of an action (`act`).
#[derive(Debug)]
pub struct CasbinName {
    pub id: String,
    pub ptype: String,
    pub name: String,
    pub is_active: bool,
    pub updated_by: String,
    pub updated_at: i64,
}

impl CasbinName {
    /// A name with a fresh id, stamped with the current time.
    pub fn new(ptype: String, name: String, is_active: bool, updated_by: String) -> (n: Self)
        ensures
            spec_parse_uuid(n.id@) is Some,
            n.ptype == ptype,
            n.name == name,
            n.is_active == is_active,
            n.updated_by == updated_by,
    {
        CasbinName { id: new_id(), ptype, name, is_active, updated_by, updated_at: now_millis() }
    }
}

impl CasbinName {
    /// A copy of the name.
    pub fn duplicate(&self) -> (r: Self)
        ensures
            r == *self,
    {
        CasbinName {
            id: self.id.clone(),
            ptype: self.ptype.clone(),
            name: self.name.clone(),
            is_active: self.is_active,
            updated_by: self.updated_by.clone(),
            updated_at: self.updated_at,
        }
    }
}

impl PermissionPolicy {
    /// A copy of the permission.
    pub fn duplicate(&self) -> (r: Self)
        ensures
            r == *self,
    {
        PermissionPolicy {
            user_role: self.user_role.clone(),
            target_group: self.target_group.clone(),
            action_group: self.action_group.clone(),
            rule: self.rule.duplicate(),
        }
    }
}

/// A name of a hierarchy that a rule can pick: a user, target or action, or a group of
/// them.
#[derive(Debug)]
pub struct ObjectGroup {
    pub id: String,
    pub name: String,
    pub is_group: bool,
}

/// A role as the role editor lists it for one user: whether the user holds it, and
/// the id of the rule that grants it, when the user does.
#[derive(Debug)]
pub struct Role {
    pub rid: String,
    pub role: String,
    pub is_bound: bool,
    pub rule_id: Option<String>,
}

/// A group rule with the names of its two sides, where they have names.
#[derive(Debug)]
pub struct CasbinRuleGroup {
    pub id: String,
    pub v0: String,
    pub v0_label: Option<String>,
    pub v1: String,
    pub v1_label: Option<String>,
}

/// A permission as the console lists it: the names of its subject, object and
/// action (or of their groups), and the rule itself.
#[derive(Debug)]
pub struct PermissionPolicy {
    pub user_role: String,
    pub target_group: String,
    pub action_group: String,
    pub rule: CasbinRule,
}

/// The kind of a hierarchy.
#[derive(Clone, Copy, Debug, PartialEq, Eq, Structural)]
pub enum RoleType {
    Subject,
    Object,
    Action,
}

/// The rule type of a hierarchy's group rules.
pub open spec fn ptype_text(rt: RoleType) -> Seq<char> {
    match rt {
        RoleType::Subject => "g1"@,
        RoleType::Object => "g2"@,
        RoleType::Action => "g3"@,
    }
}

impl RoleType {
    /// The rule type of the hierarchy's group rules: `g1`, `g2` or `g3`.
    pub fn ptype(&self) -> (s: String)
        ensures
            s@ == ptype_text(*self),
    {
        match self {
            RoleType::Subject => "g1".to_string(),
            RoleType::Object => "g2".to_string(),
            RoleType::Action => "g3".to_string(),
        }
    }
}

/// A group rule as a pair (member, group).
pub open spec fn pair_of(r: CasbinRule) -> (Seq<char>, Seq<char>) {
    (r.v0@, r.v1@)
}

pub open spec fn pairs_of(rules: Seq<CasbinRule>) -> Seq<(Seq<char>, Seq<char>)> {
    rules.map_values(|r: CasbinRule| pair_of(r))
}

/// Some rule makes `b` a member of group `a`.
pub open spec fn rule_edge(rules: Seq<(Seq<char>, Seq<char>)>, a: Seq<char>, b: Seq<char>) -> bool {
    exists|i: int| 0 <= i < rules.len() && #[trigger] rules[i] == (b, a)
}

/// Rule `i` names `x`, as member or as group.
pub open spec fn mentions_at(rules: Seq<(Seq<char>, Seq<char>)>, i: int, x: Seq<char>) -> bool {
    rules[i].0 == x || rules[i].1 == x
}

/// `x` occurs in some rule, as member or as group.
pub open spec fn mentioned(rules: Seq<(Seq<char>, Seq<char>)>, x: Seq<char>) -> bool {
    exists|i: int| 0 <= i < rules.len() && #[trigger] mentions_at(rules, i, x)
}

/// A chain of names, each a member of the one before, starting at a name that occurs in the rules.
pub open spec fn name_path(rules: Seq<(Seq<char>, Seq<char>)>, q: Seq<Seq<char>>) -> bool {
    &&& q.len() >= 1
    &&& mentioned(rules, q[0])
    &&& forall|k: int| 0 <= k < q.len() - 1 ==> #[trigger] rule_edge(rules, q[k], q[k + 1])
}

/// `b` is `a` itself (a name of the hierarchy) or a member of `a`, directly or through
/// intermediate groups.
pub open spec fn role_reaches(rules: Seq<(Seq<char>, Seq<char>)>, a: Seq<char>, b: Seq<char>) -> bool {
    exists|q: Seq<Seq<char>>| #[trigger] name_path(rules, q) && q[0] == a && q.last() == b
}

/// One hierarchy: the role names as graph nodes, an edge from each group to each member.
pub struct RoleGraph {
    /// The name of each node, by node index. A list searched in order rather than a
    /// hash map from names: vstd specifies `HashMap` only for keys whose hashing it
    /// models, and `String` keys are not among them, so a map would leave the lookup
    /// without a contract.
    keys: Vec<String>,
    graph: StableGraph<String, (), Directed, u32>,
    rules: Ghost<Seq<(Seq<char>, Seq<char>)>>,
}

pub open spec fn key_views(keys: Seq<String>) -> Seq<Seq<char>> {
    keys.map_values(|k: String| k@)
}

impl RoleGraph {
    /// The group rules the hierarchy was built from, as (member, group) pairs.
    pub closed spec fn rules(&self) -> Seq<(Seq<char>, Seq<char>)> {
        self.rules@
    }

    closed spec fn names(&self) -> Seq<Seq<char>> {
        key_views(self.keys@)
    }

    /// The keys name the graph's nodes, each once, and the graph holds exactly one
    /// node per name of the rules and one edge per rule.
    pub closed spec fn wf(&self) -> bool {
        let names = self.names();
        let rules = self.rules@;
        &&& graph_dense(self.graph)
        &&& graph_nodes(self.graph) == names
        &&& graph_edge_count(self.graph) == rules.len()
        &&& names.len() < u32::MAX
        &&& names_distinct(names)
        &&& forall|i: int| 0 <= i < names.len() ==> mentioned(rules, #[trigger] names[i])
        &&& forall|x: Seq<char>| mentioned(rules, x) ==> #[trigger] names.contains(x)
        &&& forall|a: int, b: int| #[trigger] graph_edges(self.graph).contains((a, b)) <==> (0 <= a
            < names.len() && 0 <= b < names.len() && rule_edge(rules, names[a], names[b]))
    }

    /// The index of a name, if it is a node.
    fn find_key(&self, name: &Vec<char>) -> (r: Option<u32>)
        requires
            self.names().len() < u32::MAX,
        ensures
            match r {
                Some(i) => i < self.names().len() && self.names()[i as int] == name@,
                None => !self.names().contains(name@),
            },
    {
        let mut i: usize = 0;
        while i < self.keys.len()
            invariant
                i <= self.keys.len(),
                self.keys.len() < u32::MAX,
                forall|j: int| 0 <= j < i ==> self.keys@[j]@ != name@,
            decreases self.keys.len() - i,
        {
            if str_eq_chars(self.keys[i].as_str(), name) {
                return Some(i as u32);
            }
            i = i + 1;
        }
        assert forall|x: Seq<char>| self.names().contains(x) implies x != name@ by {
            let j = choose|j: int| 0 <= j < self.names().len() && self.names()[j] == x;
            assert(self.keys@[j]@ == x);
        }
        None
    }

    /// Builds the hierarchy of a list of group rules.
    pub fn build(rules: &[CasbinRule]) -> (g: Self)
        requires
            2 * rules@.len() < u32::MAX,
        ensures
            g.wf(),
            g.rules() == pairs_of(rules@),
    {
        let mut g = RoleGraph { keys: Vec::new(), graph: graph_new(), rules: Ghost(Seq::empty()) };
        assert(g.names() =~= Seq::<Seq<char>>::empty());
        assert(pairs_of(rules@.take(0)) =~= Seq::<(Seq<char>, Seq<char>)>::empty());
        let mut i: usize = 0;
        while i < rules.len()
            invariant
                i <= rules@.len(),
                2 * rules@.len() < u32::MAX,
                g.wf(),
                g.rules@ == pairs_of(rules@.take(i as int)),
                g.names().len() <= 2 * i,
            decreases rules@.len() - i,
        {
            let r = &rules[i];
            let ghost old_rules = g.rules@;
            let ghost old_names = g.names();
            let ghost new_rules = old_rules.push((r.v0@, r.v1@));
            proof {
                assert(pairs_of(rules@.take((i + 1) as int)) =~= new_rules);
            }
            let v0c = str_chars(r.v0.as_str());
            let u = match g.find_key(&v0c) {
                Some(k) => k,
                None => {
                    let k = graph_add_node(&mut g.graph, r.v0.clone());
                    g.keys.push(r.v0.clone());
                    proof {
                        lemma_push_distinct(old_names, r.v0@);
                        assert(g.names() =~= old_names.push(r.v0@));
                    }
                    k
                },
            };
            let ghost names1 = g.names();
            proof {
                assert(names1 == old_names || (names1 == old_names.push(r.v0@) && !old_names.contains(r.v0@)));
                assert(graph_nodes(g.graph) == names1);
                assert(names_distinct(names1));
            }
            let v1c = str_chars(r.v1.as_str());
            let v = match g.find_key(&v1c) {
                Some(k) => k,
                None => {
                    let k = graph_add_node(&mut g.graph, r.v1.clone());
                    g.keys.push(r.v1.clone());
                    proof {
                        lemma_push_distinct(names1, r.v1@);
                        assert(g.names() =~= names1.push(r.v1@));
                    }
                    k
                },
            };
            let ghost names2 = g.names();
            proof {
                assert(names2 == names1 || (names2 == names1.push(r.v1@) && !names1.contains(r.v1@)));
                assert(graph_nodes(g.graph) == names2);
                assert(names2[u as int] == r.v0@);
                assert(names2[v as int] == r.v1@);
                assert(forall|j: int| 0 <= j < old_names.len() ==> names2[j] == old_names[j]);
            }
            graph_add_edge(&mut g.graph, v, u);
            g.rules = Ghost(new_rules);
            proof {
                let names = g.names();
                assert(names == names2);
                assert(names_distinct(names));
                assert forall|j: int| 0 <= j < names.len() implies mentioned(new_rules, #[trigger] names[j]) by {
                    if j < old_names.len() {
                        assert(names[j] == old_names[j]);
                        assert(mentioned(old_rules, old_names[j]));
                        lemma_mentioned_push(old_rules, (r.v0@, r.v1@), old_names[j]);
                    } else if names[j] == r.v0@ {
                        assert(new_rules[old_rules.len() as int] == (r.v0@, r.v1@));
                        assert(mentions_at(new_rules, old_rules.len() as int, names[j]));
                    } else {
                        assert(names[j] == r.v1@);
                        assert(new_rules[old_rules.len() as int] == (r.v0@, r.v1@));
                        assert(mentions_at(new_rules, old_rules.len() as int, names[j]));
                    }
                }
                assert forall|x: Seq<char>| mentioned(new_rules, x) implies #[trigger] names.contains(x) by {
                    let k = choose|k: int| 0 <= k < new_rules.len() && #[trigger] mentions_at(new_rules, k, x);
                    if k < old_rules.len() {
                        assert(old_rules[k] == new_rules[k]);
                        assert(mentions_at(old_rules, k, x));
                        assert(mentioned(old_rules, x));
                        assert(old_names.contains(x));
                        let m = choose|m: int| 0 <= m < old_names.len() && old_names[m] == x;
                        assert(names[m] == x);
                    } else {
                        assert(new_rules[k] == (r.v0@, r.v1@));
                        if x == r.v0@ {
                            assert(names[u as int] == x);
                        } else {
                            assert(names[v as int] == x);
                        }
                    }
                }
                assert forall|a: int, b: int| #[trigger] graph_edges(g.graph).contains((a, b)) <==> (0 <= a
                    < names.len() && 0 <= b < names.len() && rule_edge(new_rules, names[a], names[b])) by {
                    if graph_edges(g.graph).contains((a, b)) && !(a == v as int && b == u as int) {
                        assert(graph_edges(g.graph) == graph_edges(g.graph).remove((v as int, u as int)).insert((v as int, u as int)));
                        assert(0 <= a < old_names.len() && 0 <= b < old_names.len() && rule_edge(old_rules, old_names[a], old_names[b]));
                        let k = choose|k: int| 0 <= k < old_rules.len() && #[trigger] old_rules[k] == (old_names[b], old_names[a]);
                        assert(new_rules[k] == old_rules[k]);
                        assert(rule_edge(new_rules, names[a], names[b]));
                    }
                    if a == v as int && b == u as int {
                        assert(new_rules[old_rules.len() as int] == (names[b], names[a]));
                        assert(rule_edge(new_rules, names[a], names[b]));
                    }
                    if 0 <= a < names.len() && 0 <= b < names.len() && rule_edge(new_rules, names[a], names[b]) {
                        let k = choose|k: int| 0 <= k < new_rules.len() && #[trigger] new_rules[k] == (names[b], names[a]);
                        if k < old_rules.len() {
                            assert(old_rules[k] == new_rules[k]);
                            assert(rule_edge(old_rules, names[a], names[b]));
                            assert(mentions_at(old_rules, k, names[a]));
                            assert(mentions_at(old_rules, k, names[b]));
                            assert(mentioned(old_rules, names[a]));
                            assert(mentioned(old_rules, names[b]));
                            assert(old_names.contains(names[a]));
                            assert(old_names.contains(names[b]));
                            let ia = choose|m: int| 0 <= m < old_names.len() && old_names[m] == names[a];
                            let ib = choose|m: int| 0 <= m < old_names.len() && old_names[m] == names[b];
                            assert(names[ia] == names[a]);
                            assert(names[ib] == names[b]);
                            assert(ia == a);
                            assert(ib == b);
                            assert(graph_edges(g.graph).contains((a, b)));
                        } else {
                            assert(names[a] == r.v1@);
                            assert(names[b] == r.v0@);
                            assert(a == v as int);
                            assert(b == u as int);
                        }
                    }
                }
            }
            i = i + 1;
        }
        proof {
            assert(rules@.take(rules@.len() as int) =~= rules@);
        }
        g
    }
}

/// No name occurs twice.
pub open spec fn names_distinct(names: Seq<Seq<char>>) -> bool {
    forall|i: int, j: int| 0 <= i < names.len() && 0 <= j < names.len() && i != j ==> #[trigger] names[i] != #[trigger] names[j]
}

proof fn lemma_push_distinct(names: Seq<Seq<char>>, x: Seq<char>)
    requires
        names_distinct(names),
        !names.contains(x),
    ensures
        names_distinct(names.push(x)),
{
    let n = names.push(x);
    assert forall|i: int, j: int| 0 <= i < n.len() && 0 <= j < n.len() && i != j implies n[i] != n[j] by {
        if i < names.len() && j < names.len() {
            assert(names[i] != names[j]);
        } else if i < names.len() {
            assert(names.contains(names[i]));
        } else {
            assert(names.contains(names[j]));
        }
    }
}

proof fn lemma_mentioned_push(rules: Seq<(Seq<char>, Seq<char>)>, p: (Seq<char>, Seq<char>), x: Seq<char>)
    requires
        mentioned(rules, x),
    ensures
        mentioned(rules.push(p), x),
{
    let k = choose|k: int| 0 <= k < rules.len() && #[trigger] mentions_at(rules, k, x);
    assert(rules.push(p)[k] == rules[k]);
    assert(mentions_at(rules.push(p), k, x));
}

/// The position of a name among the nodes.
pub open spec fn key_index(names: Seq<Seq<char>>, x: Seq<char>) -> int {
    choose|i: int| 0 <= i < names.len() && names[i] == x
}

impl RoleGraph {
    /// Following edges from node `s` to node `t` is following rules from its name to `t`'s.
    proof fn lemma_paths(&self, s: int, t: int)
        requires
            self.wf(),
            0 <= s < self.names().len(),
            0 <= t < self.names().len(),
        ensures
            reachable(graph_edges(self.graph), s, t) <==> role_reaches(
                self.rules(),
                self.names()[s],
                self.names()[t],
            ),
    {
        let names = self.names();
        let rules = self.rules@;
        let edges = graph_edges(self.graph);
        if reachable(edges, s, t) {
            let p = choose|p: Seq<int>| #[trigger] is_path(edges, p) && p[0] == s && p.last() == t;
            let q = Seq::new(p.len(), |k: int| names[p[k]]);
            assert forall|k: int| 0 <= k < q.len() - 1 implies #[trigger] rule_edge(rules, q[k], q[k + 1]) by {
                assert(edges.contains((p[k], p[k + 1])));
            }
            assert(mentioned(rules, names[s]));
            assert(name_path(rules, q));
            assert(role_reaches(rules, names[s], names[t]));
        }
        if role_reaches(rules, names[s], names[t]) {
            let q = choose|q: Seq<Seq<char>>| #[trigger] name_path(rules, q) && q[0] == names[s] && q.last() == names[t];
            assert forall|k: int| 0 <= k < q.len() implies mentioned(rules, #[trigger] q[k]) by {
                if k > 0 {
                    assert(rule_edge(rules, q[k - 1], q[k - 1 + 1]));
                    let i = choose|i: int| 0 <= i < rules.len() && #[trigger] rules[i] == (q[k], q[k - 1]);
                    assert(mentions_at(rules, i, q[k]));
                }
            }
            assert forall|k: int| 0 <= k < q.len() implies names.contains(#[trigger] q[k]) by {
                assert(mentioned(rules, q[k]));
            }
            let p = Seq::new(q.len(), |k: int| key_index(names, q[k]));
            assert forall|k: int| 0 <= k < p.len() implies 0 <= #[trigger] p[k] < names.len() && names[p[k]] == q[k] by {
                assert(names.contains(q[k]));
            }
            assert forall|k: int| 0 <= k < p.len() - 1 implies #[trigger] edges.contains((p[k], p[k + 1])) by {
                assert(names[p[k]] == q[k]);
                assert(names[p[k + 1]] == q[k + 1]);
                assert(rule_edge(rules, q[k], q[k + 1]));
            }
            assert(is_path(edges, p));
            assert(names[p[0]] == names[s]);
            assert(p[0] == s);
            assert(names[p[p.len() - 1]] == names[t]);
            assert(p.last() == t);
        }
    }

    /// A name that occurs in a chain of rules occurs in the rules.
    proof fn lemma_reaches_mentioned(rules: Seq<(Seq<char>, Seq<char>)>, a: Seq<char>, b: Seq<char>)
        requires
            role_reaches(rules, a, b),
        ensures
            mentioned(rules, a),
            mentioned(rules, b),
    {
        let q = choose|q: Seq<Seq<char>>| #[trigger] name_path(rules, q) && q[0] == a && q.last() == b;
        if q.len() > 1 {
            let k = q.len() - 2;
            assert(rule_edge(rules, q[k], q[k + 1]));
            let i = choose|i: int| 0 <= i < rules.len() && #[trigger] rules[i] == (q[k + 1], q[k]);
            assert(mentions_at(rules, i, b));
        }
    }

    /// Whether `req` is `start` or one of its members, directly or through other groups.
    pub fn reaches(&self, start: &str, req: &str) -> (r: bool)
        requires
            self.wf(),
        ensures
            r == role_reaches(self.rules(), start@, req@),
    {
        let sc = str_chars(start);
        let rc = str_chars(req);
        let s = match self.find_key(&sc) {
            Some(k) => k,
            None => {
                proof {
                    if role_reaches(self.rules(), start@, req@) {
                        RoleGraph::lemma_reaches_mentioned(self.rules(), start@, req@);
                    }
                }
                return false;
            },
        };
        let t = match self.find_key(&rc) {
            Some(k) => k,
            None => {
                proof {
                    if role_reaches(self.rules(), start@, req@) {
                        RoleGraph::lemma_reaches_mentioned(self.rules(), start@, req@);
                    }
                }
                return false;
            },
        };
        let order = graph_bfs(&self.graph, s);
        proof {
            self.lemma_paths(s as int, t as int);
        }
        let mut i: usize = 0;
        while i < order.len()
            invariant
                i <= order.len(),
                forall|j: int| 0 <= j < i ==> order@[j] != t,
                s < self.names().len(),
                t < self.names().len(),
                self.names()[s as int] == start@,
                self.names()[t as int] == req@,
                forall|j: u32| order@.contains(j) <==> (j < self.names().len() && reachable(graph_edges(self.graph), s as int, j as int)),
                reachable(graph_edges(self.graph), s as int, t as int) <==> role_reaches(self.rules(), self.names()[s as int], self.names()[t as int]),
            decreases order.len() - i,
        {
            if order[i] == t {
                assert(order@.contains(t));
                assert(reachable(graph_edges(self.graph), s as int, t as int));
                assert(self.names()[s as int] == start@);
                assert(self.names()[t as int] == req@);
                return true;
            }
            i = i + 1;
        }
        assert(!order@.contains(t));
        false
    }

    /// The names reachable from `start` (itself included when it is a node), each once,
    /// in breadth-first order.
    pub fn reachable_from(&self, start: &str) -> (r: Vec<String>)
        requires
            self.wf(),
        ensures
            key_views(r@).no_duplicates(),
            forall|x: Seq<char>| #[trigger] key_views(r@).contains(x) <==> role_reaches(self.rules(), start@, x),
    {
        let sc = str_chars(start);
        let s = match self.find_key(&sc) {
            Some(k) => k,
            None => {
                let r: Vec<String> = Vec::new();
                proof {
                    assert forall|x: Seq<char>| #[trigger] key_views(r@).contains(x) <==> role_reaches(self.rules(), start@, x) by {
                        if role_reaches(self.rules(), start@, x) {
                            RoleGraph::lemma_reaches_mentioned(self.rules(), start@, x);
                        }
                    }
                }
                return r;
            },
        };
        let order = graph_bfs(&self.graph, s);
        let ghost names = self.names();
        let mut r: Vec<String> = Vec::new();
        let mut i: usize = 0;
        while i < order.len()
            invariant
                self.wf(),
                names == self.names(),
                s < names.len(),
                i <= order.len(),
                order@.no_duplicates(),
                forall|j: u32| order@.contains(j) <==> (j < names.len() && reachable(graph_edges(self.graph), s as int, j as int)),
                r@.len() == i,
                forall|k: int| 0 <= k < i ==> #[trigger] r@[k]@ == names[order@[k] as int],
            decreases order.len() - i,
        {
            assert(order@.contains(order@[i as int]));
            let w = graph_node_weight(&self.graph, order[i]);
            r.push(w.clone());
            i = i + 1;
        }
        proof {
            let rv = key_views(r@);
            assert forall|k: int| 0 <= k < rv.len() implies #[trigger] rv[k] == names[order@[k] as int] && order@[k] < names.len() by {
                assert(order@.contains(order@[k]));
            }
            assert forall|a: int, b: int| 0 <= a < rv.len() && 0 <= b < rv.len() && a != b implies rv[a] != rv[b] by {
                assert(order@[a] != order@[b]);
                assert(rv[a] == names[order@[a] as int]);
                assert(rv[b] == names[order@[b] as int]);
            }
            assert forall|x: Seq<char>| #[trigger] rv.contains(x) <==> role_reaches(self.rules(), start@, x) by {
                if rv.contains(x) {
                    let k = choose|k: int| 0 <= k < rv.len() && rv[k] == x;
                    assert(order@.contains(order@[k]));
                    self.lemma_paths(s as int, order@[k] as int);
                }
                if role_reaches(self.rules(), start@, x) {
                    RoleGraph::lemma_reaches_mentioned(self.rules(), start@, x);
                    assert(names.contains(x));
                    let j = choose|j: int| 0 <= j < names.len() && names[j] == x;
                    self.lemma_paths(s as int, j);
                    assert(order@.contains(j as u32));
                    let k = choose|k: int| 0 <= k < order@.len() && order@[k] == j as u32;
                    assert(rv[k] == x);
                }
            }
        }
        r
    }
}

/// What `uuid::Uuid::from_str` gives for a text, as the 128-bit value.
pub uninterp spec fn spec_parse_uuid(s: Seq<char>) -> Option<u128>;

/// `uuid::Uuid::from_str`. Claimed: the value is the named parse of the text.
#[verifier::external_body]
fn parse_uuid(s: &str) -> (r: Option<u128>)
    ensures
        r == spec_parse_uuid(s@),
{
    match s.parse::<uuid::Uuid>() {
        Ok(u) => Some(u.as_u128()),
        Err(_) => None,
    }
}

proof fn lemma_filter_take<A>(s: Seq<A>, f: spec_fn(A) -> bool, i: int)
    requires
        0 <= i < s.len(),
    ensures
        s.take(i + 1).filter(f) == (if f(s[i]) {
            s.take(i).filter(f).push(s[i])
        } else {
            s.take(i).filter(f)
        }),
{
    reveal(Seq::filter);
    assert(s.take(i + 1).drop_last() =~= s.take(i));
    assert(s.take(i + 1).last() == s[i]);
}

/// Why adding `member` (named `member_name`) to `group` is refused: only a group that
/// is added can close a cycle, by joining itself or a group it already leads to.
pub open spec fn group_insert_refusal_spec(
    rules: Seq<(Seq<char>, Seq<char>)>,
    member: Seq<char>,
    member_name: Seq<char>,
    member_is_group: bool,
    group: Seq<char>,
) -> Option<Seq<char>> {
    if !member_is_group {
        None
    } else if member == group {
        Some("Cannot add a group to itself"@)
    } else if role_reaches(rules, member, group) {
        Some("Cannot add "@ + member_name + ": would create a cycle in group hierarchy"@)
    } else {
        None
    }
}

/// The three hierarchies: subjects (`g1`), objects (`g2`) and actions (`g3`).
pub struct RoleManage {
    g1: RoleGraph,
    g2: RoleGraph,
    g3: RoleGraph,
}

impl RoleManage {
    pub closed spec fn wf(&self) -> bool {
        self.g1.wf() && self.g2.wf() && self.g3.wf()
    }

    /// The group rules of a hierarchy, as (member, group) pairs.
    pub closed spec fn rules(&self, rt: RoleType) -> Seq<(Seq<char>, Seq<char>)> {
        match rt {
            RoleType::Subject => self.g1.rules(),
            RoleType::Object => self.g2.rules(),
            RoleType::Action => self.g3.rules(),
        }
    }

    /// Builds the three hierarchies from their group rules.
    pub fn new(r1: &[CasbinRule], r2: &[CasbinRule], r3: &[CasbinRule]) -> (m: Self)
        requires
            2 * r1@.len() < u32::MAX,
            2 * r2@.len() < u32::MAX,
            2 * r3@.len() < u32::MAX,
        ensures
            m.wf(),
            m.rules(RoleType::Subject) == pairs_of(r1@),
            m.rules(RoleType::Object) == pairs_of(r2@),
            m.rules(RoleType::Action) == pairs_of(r3@),
    {
        RoleManage { g1: RoleGraph::build(r1), g2: RoleGraph::build(r2), g3: RoleGraph::build(r3) }
    }

    /// A copy of one hierarchy's graph: a node per name, an edge from each group to each member.
    pub fn get_group(&self, rt: RoleType) -> (g: StableGraph<String, (), Directed, u32>)
        requires
            self.wf(),
        ensures
            graph_dense(g),
            names_distinct(graph_nodes(g)),
            forall|x: Seq<char>| #[trigger] graph_nodes(g).contains(x) <==> mentioned(self.rules(rt), x),
            forall|a: int, b: int| #[trigger] graph_edges(g).contains((a, b)) <==> (0 <= a < graph_nodes(g).len()
                && 0 <= b < graph_nodes(g).len() && rule_edge(self.rules(rt), graph_nodes(g)[a], graph_nodes(g)[b])),
    {
        let src = match rt {
            RoleType::Subject => &self.g1,
            RoleType::Object => &self.g2,
            RoleType::Action => &self.g3,
        };
        let g = graph_clone(&src.graph);
        proof {
            assert(graph_nodes(g) == src.names());
            assert forall|x: Seq<char>| #[trigger] graph_nodes(g).contains(x) implies mentioned(self.rules(rt), x) by {
                let i = choose|i: int| 0 <= i < graph_nodes(g).len() && graph_nodes(g)[i] == x;
                assert(src.names()[i] == x);
            }
        }
        g
    }

    /// Whether `req` is `start` or belongs to it, directly or through other groups,
    /// in the hierarchy of kind `rt`.
    pub fn match_role(&self, start: &str, req: &str, rt: RoleType) -> (r: bool)
        requires
            self.wf(),
        ensures
            r == role_reaches(self.rules(rt), start@, req@),
    {
        match rt {
            RoleType::Subject => self.g1.reaches(start, req),
            RoleType::Object => self.g2.reaches(start, req),
            RoleType::Action => self.g3.reaches(start, req),
        }
    }

    /// The objects reachable from `start` in the object hierarchy (itself included when
    /// it is a node), each once. Only the object hierarchy can be listed.
    pub fn fetch_role_from_start(&self, start: &str, rt: RoleType) -> (r: Vec<String>)
        requires
            self.wf(),
            rt == RoleType::Object,
        ensures
            key_views(r@).no_duplicates(),
            forall|x: Seq<char>| #[trigger] key_views(r@).contains(x) <==> role_reaches(self.rules(rt), start@, x),
    {
        self.g2.reachable_from(start)
    }

    /// Why a new group rule making `member` a member of `group` is refused in the
    /// hierarchy of kind `rt`, if it is: a group cannot become a member of itself, nor of
    /// a group that it already leads to, for that would close a cycle.
    pub fn group_insert_refusal(
        &self,
        rt: RoleType,
        member: &str,
        member_name: &str,
        member_is_group: bool,
        group: &str,
    ) -> (r: Option<String>)
        requires
            self.wf(),
        ensures
            r is None <==> group_insert_refusal_spec(self.rules(rt), member@, member_name@, member_is_group, group@) is None,
            r is Some ==> group_insert_refusal_spec(self.rules(rt), member@, member_name@, member_is_group, group@)
                == Some(r->0@),
    {
        if !member_is_group {
            return None;
        }
        if str_eq_chars(member, &str_chars(group)) {
            return Some("Cannot add a group to itself".to_string());
        }
        if self.match_role(member, group, rt) {
            let mut v = str_chars("Cannot add ");
            push_all(&mut v, &str_chars(member_name));
            push_all(&mut v, &str_chars(": would create a cycle in group hierarchy"));
            return Some(chars_to_string(&v));
        }
        None
    }

    /// A permission applies to `sub` when it names `sub` itself, or names a group (not a
    /// user id) that one of the subject's role rules leads to.
    pub open spec fn sub_matches(&self, roles: Seq<CasbinRule>, sub: Seq<char>, p: CasbinRule) -> bool {
        ||| p.v0@ == sub
        ||| (spec_parse_uuid(p.v0@) is None && exists|i: int| 0 <= i < roles.len() && role_reaches(
            self.rules(RoleType::Subject),
            #[trigger] roles[i].v1@,
            p.v0@,
        ))
    }

    /// The permissions that apply to `sub`, in the order they were given.
    pub open spec fn matched(&self, policies: Seq<CasbinRule>, roles: Seq<CasbinRule>, sub: Seq<char>) -> Seq<CasbinRule> {
        policies.filter(|p: CasbinRule| self.sub_matches(roles, sub, p))
    }

    /// The permissions that apply to `sub`, in the order they were given.
    pub fn match_sub(&self, policies: Vec<CasbinRule>, roles: &Vec<CasbinRule>, sub: &str) -> (r: Vec<CasbinRule>)
        requires
            self.wf(),
        ensures
            r@ == self.matched(policies@, roles@, sub@),
    {
        let ghost f = |p: CasbinRule| self.sub_matches(roles@, sub@, p);
        let mut r: Vec<CasbinRule> = Vec::new();
        let subc = str_chars(sub);
        let mut i: usize = 0;
        assert(policies@.take(0).filter(f) =~= Seq::<CasbinRule>::empty()) by {
            reveal(Seq::filter);
        }
        while i < policies.len()
            invariant
                self.wf(),
                i <= policies.len(),
                subc@ == sub@,
                f == (|p: CasbinRule| self.sub_matches(roles@, sub@, p)),
                r@ == policies@.take(i as int).filter(f),
            decreases policies.len() - i,
        {
            let p = &policies[i];
            let mut keep = str_eq_chars(p.v0.as_str(), &subc);
            if !keep {
                if parse_uuid(p.v0.as_str()).is_none() {
                    let mut j: usize = 0;
                    while j < roles.len()
                        invariant
                            self.wf(),
                            j <= roles.len(),
                            !keep ==> forall|k: int| 0 <= k < j ==> !role_reaches(self.rules(RoleType::Subject), #[trigger] roles@[k].v1@, p.v0@),
                            keep ==> exists|k: int| 0 <= k < roles.len() && role_reaches(self.rules(RoleType::Subject), #[trigger] roles@[k].v1@, p.v0@),
                        decreases roles.len() - j,
                    {
                        if self.match_role(roles[j].v1.as_str(), p.v0.as_str(), RoleType::Subject) {
                            keep = true;
                        }
                        j = j + 1;
                    }
                }
            }
            assert(keep == f(policies@[i as int]));
            proof {
                lemma_filter_take(policies@, f, i as int);
            }
            if keep {
                r.push(p.duplicate());
            }
            i = i + 1;
        }
        assert(policies@.take(policies.len() as int) =~= policies@);
        r
    }

    /// The permission's object is `obj` or a group that contains it.
    pub open spec fn obj_matches(&self, p: CasbinRule, obj: Seq<char>) -> bool {
        p.v1@ == obj || role_reaches(self.rules(RoleType::Object), p.v1@, obj)
    }

    /// The permission's action is `act` or a group that contains it.
    pub open spec fn act_matches(&self, p: CasbinRule, act: Seq<char>) -> bool {
        p.v2 matches Some(a) && (a@ == act || role_reaches(self.rules(RoleType::Action), a@, act))
    }

    /// The decision over permissions that apply to the subject, tried in order: the first
    /// one whose object and action match (on an active object) and whose extended
    /// policy admits the request grants access; an extended policy that cannot be
    /// read ends the check with its error; none: refused.
    pub open spec fn decide(
        &self,
        ps: Seq<CasbinRule>,
        obj: Seq<char>,
        act: Seq<char>,
        obj_active: bool,
        req: ExtendPolicyReq,
        now: Timestamp,
    ) -> Result<bool, PolicyErrorKind>
        decreases ps.len(),
    {
        if ps.len() == 0 {
            Ok(false)
        } else {
            let p = ps[0];
            let rest = self.decide(ps.drop_first(), obj, act, obj_active, req, now);
            if self.obj_matches(p, obj) && obj_active && self.act_matches(p, act) {
                match verify_spec(req, p.v3@, now) {
                    Err(k) => Err(k),
                    Ok(true) => Ok(true),
                    Ok(false) => rest,
                }
            } else {
                rest
            }
        }
    }

    /// Whether `sub` may perform `act` on `obj` under the request's conditions, the
    /// policies' clock times placed on the date of `now`. `obj_active` tells whether
    /// the object is active.
    pub fn enforce_at(
        &self,
        policies: Vec<CasbinRule>,
        roles: &Vec<CasbinRule>,
        sub: &str,
        obj: &str,
        act: &str,
        obj_active: bool,
        ext: &ExtendPolicyReq,
        now: Timestamp,
    ) -> (r: Result<bool, PolicyParseError>)
        requires
            self.wf(),
        ensures
            crate::policy::verify_result_matches(
                r,
                self.decide(
                    self.matched(policies@, roles@, sub@),
                    obj@,
                    act@,
                    obj_active,
                    *ext,
                    now,
                ),
            ),
    {
        let ghost ps = policies@;
        let allowed = self.match_sub(policies, roles, sub);
        let ghost all = allowed@;
        let mut i: usize = 0;
        assert(all.skip(0) =~= all);
        while i < allowed.len()
            invariant
                self.wf(),
                i <= allowed.len(),
                all == allowed@,
                all == self.matched(ps, roles@, sub@),
                ps == policies@,
                self.decide(all.skip(i as int), obj@, act@, obj_active, *ext, now) == self.decide(all, obj@, act@, obj_active, *ext, now),
            decreases allowed.len() - i,
        {
            let pol = &allowed[i];
            assert(all.skip(i as int).drop_first() =~= all.skip(i + 1));
            assert(all.skip(i as int)[0] == *pol);
            let obj_ok = str_eq_chars(obj, &str_chars(pol.v1.as_str())) || self.match_role(pol.v1.as_str(), obj, RoleType::Object);
            if obj_ok && obj_active {
                let act_ok = match &pol.v2 {
                    Some(a) => str_eq_chars(act, &str_chars(a.as_str())) || self.match_role(a.as_str(), act, RoleType::Action),
                    None => false,
                };
                if act_ok {
                    assert(self.obj_matches(*pol, obj@));
                    assert(self.act_matches(*pol, act@));
                    let res = verify_extend_policy_at(ext, pol.v3.as_str(), now);
                    let ghost d = self.decide(all.skip(i as int), obj@, act@, obj_active, *ext, now);
                    assert(d == match verify_spec(*ext, pol.v3@, now) {
                        Err(k) => Err(k),
                        Ok(true) => Ok(true),
                        Ok(false) => self.decide(all.skip(i + 1), obj@, act@, obj_active, *ext, now),
                    });
                    match res {
                        Err(e) => {
                            return Err(e);
                        },
                        Ok(true) => {
                            return Ok(true);
                        },
                        Ok(false) => {},
                    }
                }
            }
            i = i + 1;
        }
        assert(all.skip(allowed.len() as int) =~= Seq::<CasbinRule>::empty());
        Ok(false)
    }

    /// [`RoleManage::enforce_at`] with the system clock.
    pub fn enforce(
        &self,
        policies: Vec<CasbinRule>,
        roles: &Vec<CasbinRule>,
        sub: &str,
        obj: &str,
        act: &str,
        obj_active: bool,
        ext: &ExtendPolicyReq,
    ) -> (r: Result<bool, PolicyParseError>)
        requires
            self.wf(),
        ensures
            exists|now: Timestamp|
                clock_reading(now) && #[trigger] crate::policy::verify_result_matches(
                    r,
                    self.decide(
                        self.matched(policies@, roles@, sub@),
                        obj@,
                        act@,
                        obj_active,
                        *ext,
                        now,
                    ),
                ),
    {
        let now = utc_now();
        let ghost ps = policies@;
        let r = self.enforce_at(policies, roles, sub, obj, act, obj_active, ext, now);
        assert(crate::policy::verify_result_matches(
            r,
            self.decide(self.matched(ps, roles@, sub@), obj@, act@, obj_active, *ext, now),
        ));
        r
    }
}

/// Every name of a hierarchy belongs to itself.
pub proof fn law_role_reflexive(rules: Seq<(Seq<char>, Seq<char>)>, x: Seq<char>)
    requires
        mentioned(rules, x),
    ensures
        role_reaches(rules, x, x),
{
    let q = seq![x];
    assert(name_path(rules, q));
}

/// A name no rule mentions reaches nothing and is reached by nothing.
pub proof fn law_role_unknown(rules: Seq<(Seq<char>, Seq<char>)>, x: Seq<char>, y: Seq<char>)
    requires
        !mentioned(rules, x),
    ensures
        !role_reaches(rules, x, y),
        !role_reaches(rules, y, x),
{
    if role_reaches(rules, x, y) {
        RoleGraph::lemma_reaches_mentioned(rules, x, y);
    }
    if role_reaches(rules, y, x) {
        RoleGraph::lemma_reaches_mentioned(rules, y, x);
    }
}

/// Each group rule makes its member belong to its group.
pub proof fn law_rule_membership(rules: Seq<(Seq<char>, Seq<char>)>, i: int)
    requires
        0 <= i < rules.len(),
    ensures
        role_reaches(rules, rules[i].1, rules[i].0),
{
    let q = seq![rules[i].1, rules[i].0];
    assert(mentions_at(rules, i, rules[i].1));
    assert(rule_edge(rules, q[0], q[1]));
    assert(name_path(rules, q));
}

/// Membership is transitive: a member of a member of a group belongs to the group.
pub proof fn law_role_transitive(
    rules: Seq<(Seq<char>, Seq<char>)>,
    a: Seq<char>,
    b: Seq<char>,
    c: Seq<char>,
)
    requires
        role_reaches(rules, a, b),
        role_reaches(rules, b, c),
    ensures
        role_reaches(rules, a, c),
{
    let q1 = choose|q: Seq<Seq<char>>| #[trigger] name_path(rules, q) && q[0] == a && q.last() == b;
    let q2 = choose|q: Seq<Seq<char>>| #[trigger] name_path(rules, q) && q[0] == b && q.last() == c;
    let q = q1 + q2.drop_first();
    assert forall|k: int| 0 <= k < q.len() - 1 implies #[trigger] rule_edge(rules, q[k], q[k + 1]) by {
        if k < q1.len() - 1 {
            assert(q[k] == q1[k] && q[k + 1] == q1[k + 1]);
        } else if k == q1.len() - 1 {
            assert(q[k] == q2[0]);
            assert(q[k + 1] == q2[1]);
            assert(rule_edge(rules, q2[0], q2[0int + 1]));
        } else {
            let j = k - q1.len() + 1;
            assert(q[k] == q2[j] && q[k + 1] == q2[j + 1]);
        }
    }
    assert(name_path(rules, q));
    if q2.len() == 1 {
        assert(q.last() == q1.last());
    } else {
        assert(q.last() == q2.last());
    }
}

/// Every step of `q` is a membership of the rules (the next name is a member of the
/// one before).
pub open spec fn edge_path(rules: Seq<(Seq<char>, Seq<char>)>, q: Seq<Seq<char>>) -> bool {
    forall|k: int| 0 <= k < q.len() - 1 ==> #[trigger] rule_edge(rules, q[k], q[k + 1])
}

/// `b` is reached from `a` through at least one membership.
pub open spec fn strictly_reaches(rules: Seq<(Seq<char>, Seq<char>)>, a: Seq<char>, b: Seq<char>) -> bool {
    exists|q: Seq<Seq<char>>| #[trigger] edge_path(rules, q) && q.len() >= 2 && q[0] == a && q.last() == b
}

/// No group leads back to itself.
pub open spec fn acyclic(rules: Seq<(Seq<char>, Seq<char>)>) -> bool {
    forall|x: Seq<char>| !#[trigger] strictly_reaches(rules, x, x)
}

/// A membership of the rules with one more rule is one of the rules, or the new one.
proof fn lemma_edge_of_push(
    rules: Seq<(Seq<char>, Seq<char>)>,
    member: Seq<char>,
    group: Seq<char>,
    a: Seq<char>,
    b: Seq<char>,
)
    requires
        rule_edge(rules.push((member, group)), a, b),
    ensures
        rule_edge(rules, a, b) || (a == group && b == member),
{
    let r2 = rules.push((member, group));
    let i = choose|i: int| 0 <= i < r2.len() && #[trigger] r2[i] == (b, a);
    if i < rules.len() {
        assert(rules[i] == (b, a));
    }
}

/// The first position of `x` in `p`, which holds it somewhere.
proof fn lemma_first_position(p: Seq<Seq<char>>, x: Seq<char>) -> (j: int)
    requires
        p.contains(x),
    ensures
        0 <= j < p.len(),
        p[j] == x,
        forall|t: int| 0 <= t < j ==> p[t] != x,
    decreases p.len(),
{
    if p[0] == x {
        0
    } else {
        let k = choose|k: int| 0 <= k < p.len() && p[k] == x;
        assert(p.drop_first()[k - 1] == x);
        let j = lemma_first_position(p.drop_first(), x);
        assert forall|t: int| 0 <= t < j + 1 implies p[t] != x by {
            if t > 0 {
                assert(p[t] == p.drop_first()[t - 1]);
            }
        }
        j + 1
    }
}

/// An addition that [`group_insert_refusal_spec`] lets through never closes a cycle:
/// when no group led back to itself, none does after a group `member` joins `group`.
pub proof fn law_allowed_insert_keeps_acyclic(
    rules: Seq<(Seq<char>, Seq<char>)>,
    member: Seq<char>,
    member_name: Seq<char>,
    group: Seq<char>,
)
    requires
        acyclic(rules),
        group_insert_refusal_spec(rules, member, member_name, true, group) is None,
    ensures
        acyclic(rules.push((member, group))),
{
    let r2 = rules.push((member, group));
    assert forall|x: Seq<char>| !#[trigger] strictly_reaches(r2, x, x) by {
        if strictly_reaches(r2, x, x) {
            let q = choose|q: Seq<Seq<char>>| #[trigger] edge_path(r2, q) && q.len() >= 2 && q[0] == x && q.last() == x;
            let n = q.len() as int;
            if forall|k: int| 0 <= k < n - 1 ==> #[trigger] rule_edge(rules, q[k], q[k + 1]) {
                assert(edge_path(rules, q));
                assert(strictly_reaches(rules, x, x));
            } else {
                let i = choose|k: int| 0 <= k < n - 1 && !#[trigger] rule_edge(rules, q[k], q[k + 1]);
                assert(rule_edge(r2, q[i], q[i + 1]));
                lemma_edge_of_push(rules, member, group, q[i], q[i + 1]);
                assert(q[i] == group && q[i + 1] == member);
                // Go round the cycle from `member` back to `group`.
                let p = q.subrange(i + 1, n) + q.subrange(1, i + 1);
                assert(p.len() == n - 1);
                assert(p[0] == member);
                assert(p.last() == group) by {
                    if i == 0 {
                        assert(p.last() == q[n - 1]);
                    } else {
                        assert(p.last() == q[i]);
                    }
                }
                assert forall|k: int| 0 <= k < p.len() - 1 implies #[trigger] rule_edge(r2, p[k], p[k + 1]) by {
                    let m1 = n - i - 1;
                    if k < m1 - 1 {
                        assert(p[k] == q[i + 1 + k] && p[k + 1] == q[i + 2 + k]);
                        assert(rule_edge(r2, q[i + 1 + k], q[(i + 1 + k) + 1]));
                    } else if k == m1 - 1 {
                        assert(p[k] == q[n - 1]);
                        assert(p[k + 1] == q[1]);
                        assert(rule_edge(r2, q[0], q[0int + 1]));
                    } else {
                        let t = k - m1;
                        assert(p[k] == q[1 + t] && p[k + 1] == q[2 + t]);
                        assert(rule_edge(r2, q[1 + t], q[(1 + t) + 1]));
                    }
                }
                // Stop at the first time the path comes to `group`.
                assert(p[p.len() - 1] == group);
                assert(p.contains(group));
                let j = lemma_first_position(p, group);
                let seg = p.subrange(0, j + 1);
                if j == 0 {
                    assert(member == group);
                } else {
                    assert forall|k: int| 0 <= k < seg.len() - 1 implies #[trigger] rule_edge(rules, seg[k], seg[k + 1]) by {
                        assert(seg[k] == p[k] && seg[k + 1] == p[k + 1]);
                        assert(rule_edge(r2, p[k], p[k + 1]));
                        lemma_edge_of_push(rules, member, group, p[k], p[k + 1]);
                        assert(p[k] != group);
                    }
                    assert(rule_edge(rules, seg[0], seg[0int + 1]));
                    let e = choose|e: int| 0 <= e < rules.len() && #[trigger] rules[e] == (seg[1], seg[0]);
                    assert(mentions_at(rules, e, member));
                    assert(mentioned(rules, seg[0]));
                    assert(name_path(rules, seg));
                    assert(seg.last() == group);
                    assert(role_reaches(rules, member, group));
                }
            }
        }
    }
}

impl RoleManage {
    /// A permission that names the subject itself always applies to it.
    pub proof fn law_direct_policy_applies(
        &self,
        policies: Seq<CasbinRule>,
        roles: Seq<CasbinRule>,
        sub: Seq<char>,
        i: int,
    )
        requires
            0 <= i < policies.len(),
            policies[i].v0@ == sub,
        ensures
            self.matched(policies, roles, sub).contains(policies[i]),
    {
        let f = |p: CasbinRule| self.sub_matches(roles, sub, p);
        assert(f(policies[i]));
        assert(policies.contains(policies[i]));
        broadcast use vstd::seq_lib::group_filter_ensures;
        assert(policies.filter(f) == self.matched(policies, roles, sub));
    }

    /// Only permissions from the given list are matched.
    pub proof fn law_matched_from_policies(
        &self,
        policies: Seq<CasbinRule>,
        roles: Seq<CasbinRule>,
        sub: Seq<char>,
        p: CasbinRule,
    )
        requires
            self.matched(policies, roles, sub).contains(p),
        ensures
            policies.contains(p),
            self.sub_matches(roles, sub, p),
    {
        let f = |p: CasbinRule| self.sub_matches(roles, sub, p);
        broadcast use vstd::seq_lib::group_filter_ensures;
        assert(policies.filter(f) == self.matched(policies, roles, sub));
        policies.lemma_filter_contains_rev(f, p);
        let k = choose|k: int| 0 <= k < policies.filter(f).len() && policies.filter(f)[k] == p;
        policies.lemma_filter_pred(f, k);
    }

    /// An inactive object is never granted, whatever the permissions.
    pub proof fn law_inactive_object_refused(
        &self,
        ps: Seq<CasbinRule>,
        obj: Seq<char>,
        act: Seq<char>,
        req: ExtendPolicyReq,
        now: Timestamp,
    )
        ensures
            self.decide(ps, obj, act, false, req, now) == Ok::<bool, PolicyErrorKind>(false),
        decreases ps.len(),
    {
        if ps.len() > 0 {
            self.law_inactive_object_refused(ps.drop_first(), obj, act, req, now);
        }
    }

    /// Without applicable permissions, access is refused.
    pub proof fn law_no_policy_refused(
        &self,
        obj: Seq<char>,
        act: Seq<char>,
        obj_active: bool,
        req: ExtendPolicyReq,
        now: Timestamp,
    )
        ensures
            self.decide(Seq::<CasbinRule>::empty(), obj, act, obj_active, req, now) == Ok::<bool, PolicyErrorKind>(false),
    {
    }

    /// A grant needs a permission whose object and action match and whose extended
    /// policy admits the request.
    pub proof fn law_grant_has_witness(
        &self,
        ps: Seq<CasbinRule>,
        obj: Seq<char>,
        act: Seq<char>,
        obj_active: bool,
        req: ExtendPolicyReq,
        now: Timestamp,
    )
        requires
            self.decide(ps, obj, act, obj_active, req, now) == Ok::<bool, PolicyErrorKind>(true),
        ensures
            obj_active,
            exists|i: int| 0 <= i < ps.len() && self.obj_matches(#[trigger] ps[i], obj) && self.act_matches(ps[i], act) && verify_spec(req, ps[i].v3@, now) == Ok::<bool, PolicyErrorKind>(true),
        decreases ps.len(),
    {
        let p = ps[0];
        if self.obj_matches(p, obj) && obj_active && self.act_matches(p, act) && verify_spec(req, p.v3@, now) == Ok::<bool, PolicyErrorKind>(true) {
        } else {
            self.law_grant_has_witness(ps.drop_first(), obj, act, obj_active, req, now);
            let i = choose|i: int| 0 <= i < ps.drop_first().len() && self.obj_matches(#[trigger] ps.drop_first()[i], obj) && self.act_matches(ps.drop_first()[i], act) && verify_spec(req, ps.drop_first()[i].v3@, now) == Ok::<bool, PolicyErrorKind>(true);
            assert(ps[i + 1] == ps.drop_first()[i]);
        }
    }
}

/// The decision tries the permissions in order until one grants: if permission `i`
/// matches the object and the action on an active object and its extended policy
/// admits the request, and every earlier matching permission has a readable policy,
/// access is granted, whatever the earlier ones decided.
pub proof fn law_admitting_permission_grants(
    m: RoleManage,
    ps: Seq<CasbinRule>,
    obj: Seq<char>,
    act: Seq<char>,
    req: ExtendPolicyReq,
    now: Timestamp,
    i: int,
)
    requires
        0 <= i < ps.len(),
        m.obj_matches(ps[i], obj),
        m.act_matches(ps[i], act),
        verify_spec(req, ps[i].v3@, now) == Ok::<bool, PolicyErrorKind>(true),
        forall|j: int|
            0 <= j < i && m.obj_matches(#[trigger] ps[j], obj) && m.act_matches(ps[j], act)
                ==> verify_spec(req, ps[j].v3@, now) is Ok,
    ensures
        m.decide(ps, obj, act, true, req, now) == Ok::<bool, PolicyErrorKind>(true),
    decreases ps.len(),
{
    if i > 0 {
        let rest = ps.drop_first();
        assert forall|j: int|
            0 <= j < i - 1 && m.obj_matches(#[trigger] rest[j], obj) && m.act_matches(rest[j], act)
                implies verify_spec(req, rest[j].v3@, now) is Ok by {
            assert(rest[j] == ps[j + 1]);
        }
        assert(rest[i - 1] == ps[i]);
        law_admitting_permission_grants(m, rest, obj, act, req, now, i - 1);
    }
}

/// A matching permission whose policy refuses the request is passed over: the
/// decision is the one the later permissions give.
pub proof fn law_refusing_permission_passed_over(
    m: RoleManage,
    ps: Seq<CasbinRule>,
    obj: Seq<char>,
    act: Seq<char>,
    obj_active: bool,
    req: ExtendPolicyReq,
    now: Timestamp,
)
    requires
        ps.len() > 0,
        verify_spec(req, ps[0].v3@, now) == Ok::<bool, PolicyErrorKind>(false),
    ensures
        m.decide(ps, obj, act, obj_active, req, now) == m.decide(ps.drop_first(), obj, act, obj_active, req, now),
{
}

/// Adding `member` to `group` is refused exactly when the rule would close a cycle:
/// when the member is the group itself or the group is already among the member's
/// own members. Any other addition is accepted and keeps the hierarchy acyclic.
pub proof fn law_refusal_exactly_cycles(
    rules: Seq<(Seq<char>, Seq<char>)>,
    member: Seq<char>,
    member_name: Seq<char>,
    group: Seq<char>,
)
    requires
        acyclic(rules),
    ensures
        group_insert_refusal_spec(rules, member, member_name, true, group) is None <==> acyclic(
            rules.push((member, group)),
        ),
{
    let r2 = rules.push((member, group));
    if group_insert_refusal_spec(rules, member, member_name, true, group) is None {
        law_allowed_insert_keeps_acyclic(rules, member, member_name, group);
    } else {
        assert(rule_edge(r2, group, member)) by {
            assert(r2[rules.len() as int] == (member, group));
        }
        if member == group {
            let q = seq![group, group];
            assert(edge_path(r2, q));
            assert(strictly_reaches(r2, group, group));
        } else {
            assert(role_reaches(rules, member, group));
            let q = choose|q: Seq<Seq<char>>| #[trigger] name_path(rules, q) && q[0] == member && q.last() == group;
            let c = q.push(member);
            assert forall|k: int| 0 <= k < c.len() - 1 implies #[trigger] rule_edge(r2, c[k], c[k + 1]) by {
                if k < q.len() - 1 {
                    assert(c[k] == q[k] && c[k + 1] == q[k + 1]);
                    assert(rule_edge(rules, q[k], q[k + 1]));
                    let t = choose|t: int| 0 <= t < rules.len() && #[trigger] rules[t] == (q[k + 1], q[k]);
                    assert(r2[t] == rules[t]);
                } else {
                    assert(c[k] == group && c[k + 1] == member);
                }
            }
            assert(edge_path(r2, c));
            assert(strictly_reaches(r2, member, member));
        }
    }
}

} // verus!
