use theseus_kernel::dependency_graph::{
    crates_dependent_on_me, find_weak_dependent, rewrite_section_dependents, Dependency, SectionNode,
};
use theseus_kernel::relocation::RelocationEntry;

fn rel(offset: usize) -> RelocationEntry {
    RelocationEntry { typ: 2, addend: 0, offset }
}

fn dep(section: usize, offset: usize) -> Dependency {
    Dependency { section, relocation: rel(offset) }
}

fn node(parent_crate: usize, live: bool, depends_on: Vec<Dependency>, dependents: Vec<Dependency>) -> SectionNode {
    SectionNode { parent_crate, live, depends_on, dependents }
}

/// Section 0 (old) and 1 (new) of crates 10 and 11; sections 2 and 3 (of
/// crates 20 and 30) depend on section 0.
fn graph() -> Vec<SectionNode> {
    vec![
        node(10, true, vec![], vec![dep(2, 0x8), dep(3, 0x10)]),
        node(11, true, vec![], vec![]),
        node(20, true, vec![dep(0, 0x8)], vec![]),
        node(30, true, vec![dep(5, 0x0), dep(0, 0x10)], vec![]),
        node(40, false, vec![], vec![]),
        node(50, true, vec![], vec![]),
    ]
}

#[test]
fn weak_dependents_are_found() {
    let mut g = graph();
    assert_eq!(find_weak_dependent(&g, 0, 3), Some(1));
    assert_eq!(find_weak_dependent(&g, 0, 5), None);
    g[0].dependents.push(dep(4, 0));
    assert_eq!(find_weak_dependent(&g, 0, 4), None);
}

#[test]
fn dependent_crates() {
    let mut g = graph();
    assert_eq!(crates_dependent_on_me(&g, &vec![0]), vec![20, 30]);
    g[0].dependents.push(dep(4, 0));
    g[1].dependents.push(dep(2, 0));
    assert_eq!(crates_dependent_on_me(&g, &vec![0, 1]), vec![20, 30, 20]);
}

#[test]
fn dependents_move_to_the_new_section() {
    let mut g = graph();
    let (writes, result) = rewrite_section_dependents(&mut g, 0, 1);
    assert_eq!(result, Ok(()));
    assert_eq!(writes, vec![dep(2, 0x8), dep(3, 0x10)]);
    assert_eq!(g[1].dependents, vec![dep(2, 0x8), dep(3, 0x10)]);
    assert_eq!(g[2].depends_on, vec![dep(1, 0x8)]);
    assert_eq!(g[3].depends_on, vec![dep(5, 0x0), dep(1, 0x10)]);
}

#[test]
fn moving_stops_at_a_broken_dependent() {
    let mut g = graph();
    g[0].dependents.insert(1, dep(4, 0));
    let (writes, result) = rewrite_section_dependents(&mut g, 0, 1);
    assert_eq!(result, Err("couldn't upgrade WeakDependent.section"));
    assert_eq!(writes, vec![dep(2, 0x8)]);
    let mut g = graph();
    g[3].depends_on = vec![dep(0, 0x18)];
    let (writes, result) = rewrite_section_dependents(&mut g, 0, 1);
    assert_eq!(
        result,
        Err("Couldn't find/remove the target_sec's StrongDependency on the old crate section")
    );
    assert_eq!(writes, vec![dep(2, 0x8), dep(3, 0x10)]);
    assert_eq!(g[1].dependents, vec![dep(2, 0x8), dep(3, 0x10)]);
}
