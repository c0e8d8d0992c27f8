//! The target resolver: expands a (node, profile) selector — either part may
//! be absent — into the concrete ordered list of work items. A node's
//! profiles are ordered by its `profilesOrder`, then the remaining profiles
//! in declaration order, each profile once.

use vstd::prelude::*;

use crate::batch::RunDeployError;
use crate::data::opt_view;
use crate::data::Data;
use crate::data::Node;
use crate::data::NodeEntry;
use crate::data::Profile;
use crate::data::ProfileEntry;

verus! {

/// The first node of that name, if any.
pub open spec fn find_node(nodes: Seq<NodeEntry>, name: Seq<char>) -> Option<Node>
    decreases nodes.len(),
{
    if nodes.len() == 0 {
        None
    } else if nodes[0].name@ == name {
        Some(nodes[0].node)
    } else {
        find_node(nodes.drop_first(), name)
    }
}

/// The first profile of that name, if any.
pub open spec fn find_profile(ps: Seq<ProfileEntry>, name: Seq<char>) -> Option<Profile>
    decreases ps.len(),
{
    if ps.len() == 0 {
        None
    } else if ps[0].name@ == name {
        Some(ps[0].profile)
    } else {
        find_profile(ps.drop_first(), name)
    }
}

/// The names of a node's profiles, in declaration order.
pub open spec fn profile_names(ps: Seq<ProfileEntry>) -> Seq<Seq<char>> {
    ps.map_values(|e: ProfileEntry| e.name@)
}

/// The raw enumeration of a node's profiles: `profilesOrder`, then every
/// declared profile; duplicates are suppressed later, first occurrence wins.
pub open spec fn enumeration(node: Node) -> Seq<Seq<char>> {
    node.node_settings.profiles_order.deep_view() + profile_names(node.node_settings.profiles@)
}

/// How resolving one node's profile list ends: the deduplicated names in
/// order, or the first enumerated name that is not a declared profile.
pub ghost enum NodeResolution {
    Names(Seq<Seq<char>>),
    Missing(Seq<char>),
}

/// Folds the enumerated names left to right: an unknown name fails, a known
/// one is appended unless already present.
pub open spec fn resolve_names(ps: Seq<ProfileEntry>, names: Seq<Seq<char>>) -> NodeResolution
    decreases names.len(),
{
    if names.len() == 0 {
        NodeResolution::Names(Seq::<Seq<char>>::empty())
    } else {
        match resolve_names(ps, names.drop_last()) {
            NodeResolution::Missing(m) => NodeResolution::Missing(m),
            NodeResolution::Names(l) => match find_profile(ps, names.last()) {
                None => NodeResolution::Missing(names.last()),
                Some(_) => if l.contains(names.last()) {
                    NodeResolution::Names(l)
                } else {
                    NodeResolution::Names(l.push(names.last()))
                },
            },
        }
    }
}

/// The profiles selected by `(node, *)`: order precedence, duplicates
/// suppressed, every enumerated name a declared profile.
pub open spec fn resolve_node_spec(node: Node) -> NodeResolution {
    resolve_names(node.node_settings.profiles@, enumeration(node))
}

/// A resolved profile list never holds a name twice, and every name in it is
/// a declared profile of the node.
pub proof fn lemma_resolved_profiles_unique(ps: Seq<ProfileEntry>, names: Seq<Seq<char>>)
    ensures
        resolve_names(ps, names) matches NodeResolution::Names(l) ==> {
            &&& forall|i: int, j: int| 0 <= i < j < l.len() ==> l[i] != l[j]
            &&& forall|i: int| 0 <= i < l.len() ==> find_profile(ps, #[trigger] l[i]) is Some
        },
    decreases names.len(),
{
    if names.len() > 0 {
        lemma_resolved_profiles_unique(ps, names.drop_last());
        if resolve_names(ps, names) matches NodeResolution::Names(l) {
            let prev = resolve_names(ps, names.drop_last());
            let pl = prev->Names_0;
            if find_profile(ps, names.last()) is Some && !pl.contains(names.last()) {
                assert(forall|i: int| 0 <= i < pl.len() ==> pl[i] != names.last());
            }
        }
    }
}

/// One work item: a profile to deploy on a node.
#[derive(Debug)]
pub struct WorkTarget {
    pub node_name: String,
    pub profile_name: String,
}

/// The (node name, profile name) pairs of a target list.
pub open spec fn targets_view(ts: Seq<WorkTarget>) -> Seq<(Seq<char>, Seq<char>)> {
    ts.map_values(|t: WorkTarget| (t.node_name@, t.profile_name@))
}

/// `names`, each tagged with the node `n`.
pub open spec fn tag_node(n: Seq<char>, names: Seq<Seq<char>>) -> Seq<(Seq<char>, Seq<char>)> {
    names.map_values(|p: Seq<char>| (n, p))
}

/// How resolving a whole selector ends.
pub ghost enum ResolveOutcome {
    Targets(Seq<(Seq<char>, Seq<char>)>),
    NodeMissing(Seq<char>),
    ProfileMissing(Seq<char>),
    NoNode,
}

/// Resolves `(*, *)`: every node in descriptor order, each expanded as
/// `(node, *)`; the first failure wins.
pub open spec fn resolve_all_spec(nodes: Seq<NodeEntry>) -> ResolveOutcome
    decreases nodes.len(),
{
    if nodes.len() == 0 {
        ResolveOutcome::Targets(Seq::<(Seq<char>, Seq<char>)>::empty())
    } else {
        match resolve_all_spec(nodes.drop_last()) {
            ResolveOutcome::Targets(ts) => match resolve_node_spec(nodes.last().node) {
                NodeResolution::Names(l) => ResolveOutcome::Targets(
                    ts + tag_node(nodes.last().name@, l),
                ),
                NodeResolution::Missing(m) => ResolveOutcome::ProfileMissing(m),
            },
            other => other,
        }
    }
}

/// Resolves a selector against a descriptor: a full (node, profile) pair is
/// looked up; a bare node expands to its ordered profiles; no selector
/// expands every node; a profile without a node is invalid.
pub open spec fn resolve_spec(
    data: Data,
    node: Option<Seq<char>>,
    profile: Option<Seq<char>>,
) -> ResolveOutcome {
    match (node, profile) {
        (Some(n), Some(p)) => match find_node(data.nodes@, n) {
            None => ResolveOutcome::NodeMissing(n),
            Some(nd) => match find_profile(nd.node_settings.profiles@, p) {
                None => ResolveOutcome::ProfileMissing(p),
                Some(_) => ResolveOutcome::Targets(seq![(n, p)]),
            },
        },
        (Some(n), None) => match find_node(data.nodes@, n) {
            None => ResolveOutcome::NodeMissing(n),
            Some(nd) => match resolve_node_spec(nd) {
                NodeResolution::Names(l) => ResolveOutcome::Targets(tag_node(n, l)),
                NodeResolution::Missing(m) => ResolveOutcome::ProfileMissing(m),
            },
        },
        (None, None) => resolve_all_spec(data.nodes@),
        (None, Some(_)) => ResolveOutcome::NoNode,
    }
}

fn find_node_exec<'a>(nodes: &'a Vec<NodeEntry>, name: &str) -> (r: Option<&'a Node>)
    ensures
        match r {
            Some(nd) => find_node(nodes@, name@) == Some(*nd),
            None => find_node(nodes@, name@) is None,
        },
{
    let mut j: usize = 0;
    proof {
        assert(nodes@.skip(0) =~= nodes@);
    }
    while j < nodes.len()
        invariant
            j <= nodes.len(),
            find_node(nodes@, name@) == find_node(nodes@.skip(j as int), name@),
        decreases nodes.len() - j,
    {
        proof {
            assert(nodes@.skip(j as int)[0] == nodes@[j as int]);
            assert(nodes@.skip(j as int).drop_first() =~= nodes@.skip(j + 1 as int));
        }
        if nodes[j].name.as_str().eq(name) {
            return Some(&nodes[j].node);
        }
        j = j + 1;
    }
    None
}

fn find_profile_exec<'a>(ps: &'a Vec<ProfileEntry>, name: &str) -> (r: Option<&'a Profile>)
    ensures
        match r {
            Some(p) => find_profile(ps@, name@) == Some(*p),
            None => find_profile(ps@, name@) is None,
        },
{
    let mut j: usize = 0;
    proof {
        assert(ps@.skip(0) =~= ps@);
    }
    while j < ps.len()
        invariant
            j <= ps.len(),
            find_profile(ps@, name@) == find_profile(ps@.skip(j as int), name@),
        decreases ps.len() - j,
    {
        proof {
            assert(ps@.skip(j as int)[0] == ps@[j as int]);
            assert(ps@.skip(j as int).drop_first() =~= ps@.skip(j + 1 as int));
        }
        if ps[j].name.as_str().eq(name) {
            return Some(&ps[j].profile);
        }
        j = j + 1;
    }
    None
}

fn contains_name(v: &Vec<String>, s: &str) -> (r: bool)
    ensures
        r == v.deep_view().contains(s@),
{
    let mut j: usize = 0;
    while j < v.len()
        invariant
            j <= v.len(),
            forall|i: int| 0 <= i < j ==> v.deep_view()[i] != s@,
        decreases v.len() - j,
    {
        if v[j].as_str().eq(s) {
            proof {
                assert(v.deep_view()[j as int] == s@);
            }
            return true;
        }
        j = j + 1;
    }
    proof {
        assert(!v.deep_view().contains(s@));
    }
    false
}

proof fn lemma_missing_from(ps: Seq<ProfileEntry>, names: Seq<Seq<char>>, k: int)
    requires
        0 <= k <= names.len(),
        resolve_names(ps, names.take(k)) is Missing,
    ensures
        resolve_names(ps, names) == resolve_names(ps, names.take(k)),
    decreases names.len() - k,
{
    if k == names.len() {
        assert(names.take(k) =~= names);
    } else {
        assert(names.take(k + 1).drop_last() =~= names.take(k));
        lemma_missing_from(ps, names, k + 1);
    }
}

fn resolve_node_targets(node_name: &str, node: &Node) -> (r: Result<Vec<WorkTarget>, RunDeployError>)
    ensures
        match resolve_node_spec(*node) {
            NodeResolution::Names(l) => r matches Ok(v) && targets_view(v@) == tag_node(
                node_name@,
                l,
            ),
            NodeResolution::Missing(m) => r matches Err(RunDeployError::ProfileNotFound(mm))
                && mm@ == m,
        },
{
    let ps = &node.node_settings.profiles;
    let mut names: Vec<String> = crate::data::clone_vec_string(&node.node_settings.profiles_order);
    let mut j: usize = 0;
    #[verifier::loop_isolation(false)]
    while j < ps.len()
        invariant
            j <= ps.len(),
            names.deep_view() =~= node.node_settings.profiles_order.deep_view() + profile_names(
                ps@.take(j as int),
            ),
        decreases ps.len() - j,
    {
        let ghost nv = names.deep_view();
        let pname = ps[j].name.clone();
        names.push(pname);
        proof {
            assert(names.deep_view() =~= nv.push(ps@[j as int].name@));
            assert(profile_names(ps@.take(j + 1 as int)) =~= profile_names(
                ps@.take(j as int),
            ).push(ps@[j as int].name@));
            assert(names.deep_view() =~= node.node_settings.profiles_order.deep_view()
                + profile_names(ps@.take(j + 1 as int)));
        }
        j = j + 1;
    }
    proof {
        assert(ps@.take(ps@.len() as int) =~= ps@);
        assert(names.deep_view() =~= enumeration(*node));
    }
    let ghost en = enumeration(*node);
    let mut seen: Vec<String> = Vec::new();
    let mut out: Vec<WorkTarget> = Vec::new();
    let mut i: usize = 0;
    proof {
        assert(en.take(0) =~= Seq::<Seq<char>>::empty());
        assert(seen.deep_view() =~= Seq::<Seq<char>>::empty());
        assert(targets_view(out@) =~= tag_node(node_name@, seen.deep_view()));
    }
    #[verifier::loop_isolation(false)]
    while i < names.len()
        invariant
            i <= names.len(),
            resolve_names(ps@, en.take(i as int)) == NodeResolution::Names(seen.deep_view()),
            targets_view(out@) == tag_node(node_name@, seen.deep_view()),
        decreases names.len() - i,
    {
        proof {
            assert(en.take(i + 1 as int).drop_last() =~= en.take(i as int));
            assert(en.take(i + 1 as int).last() == names@[i as int]@);
        }
        let name = &names[i];
        match find_profile_exec(ps, name.as_str()) {
            None => {
                proof {
                    lemma_missing_from(ps@, en, i + 1 as int);
                }
                return Err(RunDeployError::ProfileNotFound(name.clone()));
            },
            Some(_) => {
                if !contains_name(&seen, name.as_str()) {
                    let ghost sd = seen.deep_view();
                    let ghost od = out@;
                    seen.push(name.clone());
                    out.push(
                        WorkTarget {
                            node_name: node_name.to_owned(),
                            profile_name: name.clone(),
                        },
                    );
                    proof {
                        assert(seen.deep_view() =~= sd.push(names@[i as int]@));
                        assert(out@ == od.push(out@.last()));
                        assert(out@.last().node_name@ == node_name@);
                        assert(out@.last().profile_name@ == names@[i as int]@);
                        assert(targets_view(out@) =~= targets_view(od).push(
                            (node_name@, names@[i as int]@),
                        ));
                        assert(tag_node(node_name@, seen.deep_view()) =~= tag_node(
                            node_name@,
                            sd,
                        ).push((node_name@, names@[i as int]@)));
                        assert(targets_view(out@) =~= tag_node(node_name@, seen.deep_view()));
                    }
                }
            },
        }
        i = i + 1;
    }
    proof {
        assert(en.take(names@.len() as int) =~= en);
    }
    Ok(out)
}

proof fn lemma_all_error_from(nodes: Seq<NodeEntry>, k: int)
    requires
        0 <= k <= nodes.len(),
        !(resolve_all_spec(nodes.take(k)) is Targets),
    ensures
        resolve_all_spec(nodes) == resolve_all_spec(nodes.take(k)),
    decreases nodes.len() - k,
{
    if k == nodes.len() {
        assert(nodes.take(k) =~= nodes);
    } else {
        assert(nodes.take(k + 1).drop_last() =~= nodes.take(k));
        lemma_all_error_from(nodes, k + 1);
    }
}

/// Expands a selector into the ordered list of work items, or the error the
/// selector deserves: an unknown node or profile is named, and a profile
/// given without a node is refused.
pub fn resolve_targets(data: &Data, node: &Option<String>, profile: &Option<String>) -> (r: Result<
    Vec<WorkTarget>,
    RunDeployError,
>)
    ensures
        match resolve_spec(*data, opt_view(*node), opt_view(*profile)) {
            ResolveOutcome::Targets(ts) => r matches Ok(v) && targets_view(v@) == ts,
            ResolveOutcome::NodeMissing(n) => r matches Err(RunDeployError::NodeNotFound(m)) && m@
                == n,
            ResolveOutcome::ProfileMissing(p) => r matches Err(RunDeployError::ProfileNotFound(m))
                && m@ == p,
            ResolveOutcome::NoNode => r matches Err(RunDeployError::ProfileWithoutNode),
        },
{
    match (node, profile) {
        (Some(n), Some(p)) => match find_node_exec(&data.nodes, n.as_str()) {
            None => Err(RunDeployError::NodeNotFound(n.clone())),
            Some(nd) => match find_profile_exec(&nd.node_settings.profiles, p.as_str()) {
                None => Err(RunDeployError::ProfileNotFound(p.clone())),
                Some(_) => {
                    let mut v: Vec<WorkTarget> = Vec::new();
                    v.push(WorkTarget { node_name: n.clone(), profile_name: p.clone() });
                    proof {
                        assert(targets_view(v@) =~= seq![(n@, p@)]);
                    }
                    Ok(v)
                },
            },
        },
        (Some(n), None) => match find_node_exec(&data.nodes, n.as_str()) {
            None => Err(RunDeployError::NodeNotFound(n.clone())),
            Some(nd) => resolve_node_targets(n.as_str(), nd),
        },
        (None, None) => {
            let mut out: Vec<WorkTarget> = Vec::new();
            let mut i: usize = 0;
            let ghost ns = data.nodes@;
            proof {
                assert(ns.take(0) =~= Seq::<NodeEntry>::empty());
                assert(targets_view(out@) =~= Seq::<(Seq<char>, Seq<char>)>::empty());
            }
            #[verifier::loop_isolation(false)]
            while i < data.nodes.len()
                invariant
                    i <= data.nodes.len(),
                    resolve_all_spec(ns.take(i as int)) == ResolveOutcome::Targets(
                        targets_view(out@),
                    ),
                decreases data.nodes.len() - i,
            {
                proof {
                    assert(ns.take(i + 1 as int).drop_last() =~= ns.take(i as int));
                    assert(ns.take(i + 1 as int).last() == ns[i as int]);
                }
                let entry = &data.nodes[i];
                match resolve_node_targets(entry.name.as_str(), &entry.node) {
                    Ok(mut nts) => {
                        let ghost od = out@;
                        let ghost nd = nts@;
                        out.append(&mut nts);
                        proof {
                            assert(targets_view(od + nd) =~= targets_view(od) + targets_view(nd));
                            assert(out@ == od + nd);
                        }
                    },
                    Err(e) => {
                        proof {
                            lemma_all_error_from(ns, i + 1 as int);
                        }
                        return Err(e);
                    },
                }
                i = i + 1;
            }
            proof {
                assert(ns.take(data.nodes@.len() as int) =~= ns);
            }
            Ok(out)
        },
        (None, Some(_)) => Err(RunDeployError::ProfileWithoutNode),
    }
}

} // verus!
