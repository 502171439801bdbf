//! The dependencies between loaded sections: each section keeps the
//! sections it depends on (through one relocation each) and the sections
//! that depend on it. Sections are named by their position in the graph,
//! crates by a number; a section that was dropped is no longer live, and a
//! reference to it can no longer be followed.

use vstd::prelude::*;
use crate::relocation::RelocationEntry;

verus! {

/// A dependency through one relocation: the section at the other end and
/// the relocation that links the two.
#[derive(Debug, Clone, Copy, PartialEq, Eq, Structural)]
pub struct Dependency {
    pub section: usize,
    pub relocation: RelocationEntry,
}

/// A section of the graph.
pub struct SectionNode {
    /// The crate that holds the section
    pub parent_crate: usize,
    /// Whether the section is still live
    pub live: bool,
    /// The sections this one depends on
    pub depends_on: Vec<Dependency>,
    /// The sections that depend on this one
    pub dependents: Vec<Dependency>,
}

/// `SectionNode` as a specification value.
pub struct NodeView {
    pub parent_crate: usize,
    pub live: bool,
    pub depends_on: Seq<Dependency>,
    pub dependents: Seq<Dependency>,
}

impl View for SectionNode {
    type V = NodeView;

    open spec fn view(&self) -> NodeView {
        NodeView {
            parent_crate: self.parent_crate,
            live: self.live,
            depends_on: self.depends_on@,
            dependents: self.dependents@,
        }
    }
}

/// The views of the sections of a graph.
pub open spec fn graph_view(g: Seq<SectionNode>) -> Seq<NodeView> {
    g.map_values(|n: SectionNode| n@)
}

/// Every dependency of the graph names one of its sections.
pub open spec fn graph_wf(g: Seq<NodeView>) -> bool {
    &&& forall|i: int, j: int|
        0 <= i < g.len() && 0 <= j < g[i].depends_on.len() ==> (#[trigger] g[i].depends_on[j]).section < g.len()
    &&& forall|i: int, j: int|
        0 <= i < g.len() && 0 <= j < g[i].dependents.len() ==> (#[trigger] g[i].dependents[j]).section < g.len()
}

/// The first position in `deps`, from `i` on, of a dependent that is the
/// live section `s`.
pub open spec fn first_live_dependent(deps: Seq<Dependency>, g: Seq<NodeView>, s: usize, i: int) -> Option<int>
    decreases deps.len() - i,
{
    if i < 0 || i >= deps.len() {
        None
    } else if deps[i].section == s && deps[i].section < g.len() && g[deps[i].section as int].live {
        Some(i)
    } else {
        first_live_dependent(deps, g, s, i + 1)
    }
}

/// Returns the position of the first dependent of section `sec` that is
/// the live section `matching`, if any.
pub fn find_weak_dependent(graph: &Vec<SectionNode>, sec: usize, matching: usize) -> (r: Option<usize>)
    requires
        sec < graph@.len(),
        graph_wf(graph_view(graph@)),
    ensures
        match first_live_dependent(graph@[sec as int]@.dependents, graph_view(graph@), matching, 0) {
            Some(i) => r matches Some(j) && j == i,
            None => r is None,
        },
{
    let ghost g = graph_view(graph@);
    let deps = &graph[sec].dependents;
    let mut i: usize = deps.len();
    let mut found: Option<usize> = None;
    while i > 0
        invariant
            i <= deps@.len(),
            deps@ == graph@[sec as int]@.dependents,
            g == graph_view(graph@),
            g.len() == graph@.len(),
            match first_live_dependent(deps@, g, matching, i as int) {
                Some(k) => found matches Some(j) && j == k && i <= k < deps@.len(),
                None => found is None,
            },
        decreases i,
    {
        i = i - 1;
        let d = deps[i];
        if d.section == matching && d.section < graph.len() && graph[d.section].live {
            proof {
                assert(g[d.section as int] == graph@[d.section as int]@);
            }
            found = Some(i);
        } else {
            proof {
                if d.section < graph.len() {
                    assert(g[d.section as int] == graph@[d.section as int]@);
                }
            }
        }
    }
    found
}

/// The crates of the live sections that depend on the sections `secs`,
/// in order (a crate may come more than once).
pub open spec fn dependent_crates(g: Seq<NodeView>, secs: Seq<usize>) -> Seq<usize>
    decreases secs.len(),
{
    if secs.len() == 0 {
        Seq::empty()
    } else {
        let deps = g[secs.last() as int].dependents;
        dependent_crates(g, secs.drop_last()) + live_parents(g, deps, deps.len() as int)
    }
}

/// The crates of the live sections among the first `n` of `deps`.
pub open spec fn live_parents(g: Seq<NodeView>, deps: Seq<Dependency>, n: int) -> Seq<usize>
    decreases n,
{
    if n <= 0 {
        Seq::empty()
    } else {
        let prev = live_parents(g, deps, n - 1);
        let s = deps[n - 1].section as int;
        if g[s].live {
            prev.push(g[s].parent_crate)
        } else {
            prev
        }
    }
}

/// Returns the crates of the live sections that depend on the crate's
/// sections `crate_sections`, in order; a crate may come more than once.
pub fn crates_dependent_on_me(graph: &Vec<SectionNode>, crate_sections: &Vec<usize>) -> (r: Vec<usize>)
    requires
        graph_wf(graph_view(graph@)),
        forall|i: int| 0 <= i < crate_sections@.len() ==> #[trigger] crate_sections@[i] < graph@.len(),
    ensures
        r@ == dependent_crates(graph_view(graph@), crate_sections@),
{
    let ghost g = graph_view(graph@);
    let mut r: Vec<usize> = Vec::new();
    let mut i: usize = 0;
    while i < crate_sections.len()
        invariant
            i <= crate_sections@.len(),
            g == graph_view(graph@),
            g.len() == graph@.len(),
            graph_wf(g),
            forall|k: int| 0 <= k < crate_sections@.len() ==> #[trigger] crate_sections@[k] < graph@.len(),
            r@ == dependent_crates(g, crate_sections@.subrange(0, i as int)),
        decreases crate_sections@.len() - i,
    {
        let s = crate_sections[i];
        let deps = &graph[s].dependents;
        proof {
            assert(g[s as int] == graph@[s as int]@);
            assert(crate_sections@.subrange(0, i + 1).drop_last() =~= crate_sections@.subrange(0, i as int));
        }
        let ghost before = r@;
        let mut j: usize = 0;
        while j < deps.len()
            invariant
                j <= deps@.len(),
                deps@ == g[s as int].dependents,
                g == graph_view(graph@),
                g.len() == graph@.len(),
                s < g.len(),
                graph_wf(g),
                r@ == before + live_parents(g, deps@, j as int),
            decreases deps@.len() - j,
        {
            let d = deps[j];
            proof {
                assert(d.section < g.len());
                assert(g[d.section as int] == graph@[d.section as int]@);
            }
            if graph[d.section].live {
                r.push(graph[d.section].parent_crate);
                assert(r@ =~= before + live_parents(g, deps@, j + 1));
            }
            j = j + 1;
        }
        i = i + 1;
    }
    assert(crate_sections@.subrange(0, crate_sections@.len() as int) =~= crate_sections@);
    r
}

/// The first position in `deps`, from `i` on, of a dependency on section
/// `s` through relocation `rel`.
pub open spec fn first_dependency_on(deps: Seq<Dependency>, s: usize, rel: RelocationEntry, i: int) -> Option<int>
    decreases deps.len() - i,
{
    if i < 0 || i >= deps.len() {
        None
    } else if deps[i].section == s && deps[i].relocation == rel {
        Some(i)
    } else {
        first_dependency_on(deps, s, rel, i + 1)
    }
}

/// The error when a dependent section was dropped.
pub open spec fn dropped_dependent_msg() -> Seq<char> {
    "couldn't upgrade WeakDependent.section"@
}

/// The error when a dependent section does not depend on the old section.
pub open spec fn missing_dependency_msg() -> Seq<char> {
    "Couldn't find/remove the target_sec's StrongDependency on the old crate section"@
}

/// Moving the dependents `deps[i..]` of section `old` over to section
/// `new`, in order: each dependent's relocation is to be written again
/// (against `new`), `new` learns of the dependent, and the dependent's
/// dependency on `old` through that relocation now names `new`. The result
/// is the graph, the relocations to write (with the sections they are in),
/// and the error that stopped the moving, if any.
pub open spec fn rewrite_fold(g: Seq<NodeView>, old: usize, new: usize, deps: Seq<Dependency>, i: int) -> (
    Seq<NodeView>,
    Seq<Dependency>,
    Option<Seq<char>>,
)
    decreases deps.len() - i,
{
    if i < 0 || i >= deps.len() {
        (g, Seq::empty(), None)
    } else {
        let d = deps[i];
        let t = d.section as int;
        if !g[t].live {
            (g, Seq::empty(), Some(dropped_dependent_msg()))
        } else {
            let g1 = g.update(new as int, NodeView { dependents: g[new as int].dependents.push(d), ..g[new as int] });
            match first_dependency_on(g1[t].depends_on, old, d.relocation, 0) {
                None => (g1, seq![d], Some(missing_dependency_msg())),
                Some(k) => {
                    let g2 = g1.update(
                        t,
                        NodeView {
                            depends_on: g1[t].depends_on.update(k, Dependency { section: new, relocation: d.relocation }),
                            ..g1[t]
                        },
                    );
                    let (g3, w, e) = rewrite_fold(g2, old, new, deps, i + 1);
                    (g3, seq![d] + w, e)
                },
            }
        }
    }
}

fn find_dependency_on(deps: &Vec<Dependency>, s: usize, rel: RelocationEntry) -> (r: Option<usize>)
    ensures
        match first_dependency_on(deps@, s, rel, 0) {
            Some(k) => r matches Some(j) && j == k && 0 <= k < deps@.len(),
            None => r is None,
        },
{
    let mut i: usize = deps.len();
    let mut found: Option<usize> = None;
    while i > 0
        invariant
            i <= deps@.len(),
            match first_dependency_on(deps@, s, rel, i as int) {
                Some(k) => found matches Some(j) && j == k && i <= k < deps@.len(),
                None => found is None,
            },
        decreases i,
    {
        i = i - 1;
        if deps[i].section == s && deps[i].relocation == rel {
            found = Some(i);
        }
    }
    found
}

fn copy_deps(v: &Vec<Dependency>) -> (r: Vec<Dependency>)
    ensures
        r@ == v@,
{
    let mut r: Vec<Dependency> = Vec::new();
    let mut i: usize = 0;
    while i < v.len()
        invariant
            i <= v@.len(),
            r@ == v@.subrange(0, i as int),
        decreases v@.len() - i,
    {
        r.push(v[i]);
        i = i + 1;
        assert(r@ =~= v@.subrange(0, i as int));
    }
    assert(v@.subrange(0, v@.len() as int) =~= v@);
    r
}

/// Moves the sections that depend on section `old` over to section `new`:
/// for each dependent of `old`, in order, its relocation is to be written
/// again against `new`, `new` learns of the dependent, and the dependent's
/// dependency on `old` through that relocation now names `new`. Returns the
/// relocations to write again, with the sections they are in, and whether
/// the moving went through: it stops at a dependent that was dropped or
/// that does not depend on `old` through that relocation.
pub fn rewrite_section_dependents(graph: &mut Vec<SectionNode>, old_sec: usize, new_sec: usize) -> (r: (
    Vec<Dependency>,
    Result<(), &'static str>,
))
    requires
        old_sec < old(graph)@.len(),
        new_sec < old(graph)@.len(),
        graph_wf(graph_view(old(graph)@)),
    ensures
        ({
            let g0 = graph_view(old(graph)@);
            let (g, w, e) = rewrite_fold(g0, old_sec, new_sec, g0[old_sec as int].dependents, 0);
            &&& graph_view(final(graph)@) == g
            &&& r.0@ == w
            &&& match e {
                None => r.1 is Ok,
                Some(m) => r.1 matches Err(x) && x@ == m,
            }
        }),
{
    let ghost g0 = graph_view(graph@);
    let deps = copy_deps(&graph[old_sec].dependents);
    proof {
        assert(g0[old_sec as int] == graph@[old_sec as int]@);
    }
    let ghost deps_v = deps@;
    proof {
        assert forall|j: int| 0 <= j < deps_v.len() implies (#[trigger] deps_v[j]).section < g0.len() by {
            assert(g0[old_sec as int].dependents[j] == deps_v[j]);
        }
    }
    let mut writes: Vec<Dependency> = Vec::new();
    assert(writes@ + rewrite_fold(g0, old_sec, new_sec, deps_v, 0).1 =~= rewrite_fold(g0, old_sec, new_sec, deps_v, 0).1);
    let mut i: usize = 0;
    while i < deps.len()
        invariant
            i <= deps@.len(),
            deps@ == deps_v,
            deps_v == g0[old_sec as int].dependents,
            g0 == graph_view(old(graph)@),
            old_sec < graph@.len(),
            new_sec < graph@.len(),
            graph@.len() == g0.len(),
            graph_wf(g0),
            forall|j: int| 0 <= j < deps_v.len() ==> (#[trigger] deps_v[j]).section < g0.len(),
            ({
                let (g, w, e) = rewrite_fold(g0, old_sec, new_sec, deps_v, 0);
                let (gi, wi, ei) = rewrite_fold(graph_view(graph@), old_sec, new_sec, deps_v, i as int);
                &&& g == gi
                &&& w == writes@ + wi
                &&& e == ei
            }),
        decreases deps@.len() - i,
    {
        let d = deps[i];
        let ghost gv = graph_view(graph@);
        proof {
            assert(d.section < g0.len());
            assert(gv[d.section as int] == graph@[d.section as int]@);
        }
        if !graph[d.section].live {
            proof {
                assert(writes@ + Seq::<Dependency>::empty() =~= writes@);
            }
            return (writes, Err("couldn't upgrade WeakDependent.section"));
        }
        let ghost before = writes@;
        writes.push(d);
        // the new section learns of the dependent
        let mut new_dependents = copy_deps(&graph[new_sec].dependents);
        new_dependents.push(d);
        let new_node = SectionNode {
            parent_crate: graph[new_sec].parent_crate,
            live: graph[new_sec].live,
            depends_on: copy_deps(&graph[new_sec].depends_on),
            dependents: new_dependents,
        };
        proof {
            assert(gv[new_sec as int] == graph@[new_sec as int]@);
        }
        graph.set(new_sec, new_node);
        let ghost g1 = graph_view(graph@);
        proof {
            assert(g1 =~= gv.update(new_sec as int, NodeView { dependents: gv[new_sec as int].dependents.push(d), ..gv[new_sec as int] }));
            assert(g1[d.section as int] == graph@[d.section as int]@);
        }
        // the dependent now depends on the new section
        let t = d.section;
        proof {
            assert(g1[t as int] == graph@[t as int]@);
        }
        let k = match find_dependency_on(&graph[t].depends_on, old_sec, d.relocation) {
            Some(k) => k,
            None => {
                proof {
                    assert(writes@ =~= before + seq![d]);
                }
                return (writes, Err("Couldn't find/remove the target_sec's StrongDependency on the old crate section"));
            },
        };
        let mut target_deps = copy_deps(&graph[t].depends_on);
        target_deps.set(k, Dependency { section: new_sec, relocation: d.relocation });
        let target_node = SectionNode {
            parent_crate: graph[t].parent_crate,
            live: graph[t].live,
            depends_on: target_deps,
            dependents: copy_deps(&graph[t].dependents),
        };
        graph.set(t, target_node);
        proof {
            let g2 = graph_view(graph@);
            assert(g2 =~= g1.update(
                t as int,
                NodeView {
                    depends_on: g1[t as int].depends_on.update(k as int, Dependency { section: new_sec, relocation: d.relocation }),
                    ..g1[t as int]
                },
            ));
            assert(deps_v[i as int] == d);
            assert(gv[t as int].live);
            assert(first_dependency_on(g1[t as int].depends_on, old_sec, d.relocation, 0) == Some(k as int));
            assert(rewrite_fold(gv, old_sec, new_sec, deps_v, i as int) == {
                let (g3, w, e) = rewrite_fold(g2, old_sec, new_sec, deps_v, i + 1);
                (g3, seq![d] + w, e)
            });
            let (gi, wi, ei) = rewrite_fold(gv, old_sec, new_sec, deps_v, i as int);
            let (gn, wn, en) = rewrite_fold(g2, old_sec, new_sec, deps_v, i + 1);
            assert(wi == seq![d] + wn);
            assert(before + wi =~= writes@ + wn);
        }
        i = i + 1;
    }
    proof {
        assert(writes@ + Seq::<Dependency>::empty() =~= writes@);
    }
    (writes, Ok(()))
}

proof fn lemma_first_dependency_bounds(deps: Seq<Dependency>, s: usize, rel: RelocationEntry, i: int)
    requires
        0 <= i,
    ensures
        first_dependency_on(deps, s, rel, i) matches Some(k) ==> i <= k < deps.len(),
    decreases deps.len() - i,
{
    if i < deps.len() && !(deps[i].section == s && deps[i].relocation == rel) {
        lemma_first_dependency_bounds(deps, s, rel, i + 1);
    }
}

/// Moving dependents keeps the graph well formed: every dependency still
/// names one of its sections, and no section is added or dropped.
pub proof fn law_rewrite_keeps_graph_wf(g: Seq<NodeView>, old_sec: usize, new_sec: usize, deps: Seq<Dependency>, i: int)
    requires
        graph_wf(g),
        new_sec < g.len(),
        forall|j: int| 0 <= j < deps.len() ==> (#[trigger] deps[j]).section < g.len(),
    ensures
        graph_wf(rewrite_fold(g, old_sec, new_sec, deps, i).0),
        rewrite_fold(g, old_sec, new_sec, deps, i).0.len() == g.len(),
        forall|s: int|
            0 <= s < g.len() ==> (#[trigger] rewrite_fold(g, old_sec, new_sec, deps, i).0[s]).live == g[s].live
                && rewrite_fold(g, old_sec, new_sec, deps, i).0[s].parent_crate == g[s].parent_crate,
    decreases deps.len() - i,
{
    if 0 <= i < deps.len() {
        let d = deps[i];
        let t = d.section as int;
        if g[t].live {
            let g1 = g.update(new_sec as int, NodeView { dependents: g[new_sec as int].dependents.push(d), ..g[new_sec as int] });
            assert(graph_wf(g1)) by {
                assert forall|a: int, b: int|
                    0 <= a < g1.len() && 0 <= b < g1[a].dependents.len() implies (#[trigger] g1[a].dependents[b]).section
                    < g1.len() by {
                    if a == new_sec as int && b == g[new_sec as int].dependents.len() {
                    } else {
                        assert(g1[a].dependents[b] == g[a].dependents[b]);
                    }
                }
                assert forall|a: int, b: int|
                    0 <= a < g1.len() && 0 <= b < g1[a].depends_on.len() implies (#[trigger] g1[a].depends_on[b]).section
                    < g1.len() by {
                    assert(g1[a].depends_on[b] == g[a].depends_on[b]);
                }
            }
            match first_dependency_on(g1[t].depends_on, old_sec, d.relocation, 0) {
                None => {},
                Some(k) => {
                    lemma_first_dependency_bounds(g1[t].depends_on, old_sec, d.relocation, 0);
                    let nd = Dependency { section: new_sec, relocation: d.relocation };
                    let g2 = g1.update(t, NodeView { depends_on: g1[t].depends_on.update(k, nd), ..g1[t] });
                    assert(graph_wf(g2)) by {
                        assert forall|a: int, b: int|
                            0 <= a < g2.len() && 0 <= b < g2[a].depends_on.len() implies (#[trigger] g2[a].depends_on[b]).section
                            < g2.len() by {
                            if a == t && b == k {
                            } else {
                                assert(g2[a].depends_on[b] == g1[a].depends_on[b]);
                            }
                        }
                        assert forall|a: int, b: int|
                            0 <= a < g2.len() && 0 <= b < g2[a].dependents.len() implies (#[trigger] g2[a].dependents[b]).section
                            < g2.len() by {
                            assert(g2[a].dependents[b] == g1[a].dependents[b]);
                        }
                    }
                    law_rewrite_keeps_graph_wf(g2, old_sec, new_sec, deps, i + 1);
                },
            }
        }
    }
}

} // verus!
