//! The symbol map of a crate namespace: each global symbol's name mapped to
//! the loaded section that defines it, kept in a `qp_trie` trie so that
//! symbols can be looked up by name and by prefix; and the lookups along a
//! chain of namespaces, where a namespace falls back on its recursive one.
//! Sections are named here by the numbers that the caller knows them by.

use vstd::prelude::*;
use qp_trie::Trie;
use qp_trie::wrapper::BString;
use crate::naming::{section_name_without_hash, spec_section_name_without_hash};

verus! {

#[verifier::external_type_specification]
#[verifier::external_body]
#[verifier::reject_recursive_types(K)]
#[verifier::reject_recursive_types(V)]
pub struct ExTrie<K, V>(Trie<K, V>);

#[verifier::external_type_specification]
#[verifier::external_body]
pub struct ExBString(BString);

/// The entries of a trie of section numbers keyed by symbol names.
pub uninterp spec fn trie_entries(t: Trie<BString, usize>) -> Map<Seq<char>, usize>;

/// The value of `key` in `m`, if it has one.
pub open spec fn lookup(m: Map<Seq<char>, usize>, key: Seq<char>) -> Option<usize> {
    if m.dom().contains(key) {
        Some(m[key])
    } else {
        None
    }
}

/// The map without entries.
pub open spec fn no_entries() -> Map<Seq<char>, usize> {
    Map::empty()
}

/// Calls `Trie::new`, which makes a trie without entries.
#[verifier::external_body]
pub(crate) fn trie_new() -> (r: Trie<BString, usize>)
    ensures
        trie_entries(r) == no_entries(),
{
    Trie::new()
}

/// Calls `Trie::insert_str`: afterwards `key` maps to `val` and every other
/// entry is as it was; it returns the value that `key` had, if any.
#[verifier::external_body]
pub(crate) fn trie_insert(t: &mut Trie<BString, usize>, key: &str, val: usize) -> (r: Option<usize>)
    ensures
        r == lookup(trie_entries(*old(t)), key@),
        trie_entries(*final(t)) == trie_entries(*old(t)).insert(key@, val),
{
    t.insert_str(key, val)
}

/// Calls `Trie::get_str`, which returns the value of `key`, if it has one.
#[verifier::external_body]
pub(crate) fn trie_get(t: &Trie<BString, usize>, key: &str) -> (r: Option<usize>)
    ensures
        r == lookup(trie_entries(*t), key@),
{
    t.get_str(key).copied()
}

/// Calls `Trie::remove_str`: afterwards `key` has no entry and every other
/// entry is as it was; it returns the value that `key` had, if any.
#[verifier::external_body]
pub(crate) fn trie_remove(t: &mut Trie<BString, usize>, key: &str) -> (r: Option<usize>)
    ensures
        r == lookup(trie_entries(*old(t)), key@),
        trie_entries(*final(t)) == trie_entries(*old(t)).remove(key@),
{
    t.remove_str(key)
}

/// Calls `Trie::clone` (derived), which copies every entry.
#[verifier::external_body]
pub(crate) fn trie_clone(t: &Trie<BString, usize>) -> (r: Trie<BString, usize>)
    ensures
        trie_entries(r) == trie_entries(*t),
{
    t.clone()
}

/// Calls `Trie::iter_prefix_str` and hands out each entry whose key starts
/// with `prefix` (in bytes, which for strings is in characters), once each,
/// as an owned string and its value. The order in which they come, the
/// trie's own, is not stated.
#[verifier::external_body]
pub(crate) fn trie_prefix_entries(t: &Trie<BString, usize>, prefix: &str) -> (r: Vec<(String, usize)>)
    ensures
        forall|i: int|
            0 <= i < r@.len() ==> prefix@.is_prefix_of(#[trigger] r@[i].0@) && lookup(trie_entries(*t), r@[i].0@)
                == Some(r@[i].1),
        forall|k: Seq<char>|
            #![trigger trie_entries(*t).dom().contains(k)]
            trie_entries(*t).dom().contains(k) && prefix@.is_prefix_of(k) ==> exists|i: int|
                0 <= i < r@.len() && (#[trigger] r@[i].0@) == k,
        forall|i: int, j: int| 0 <= i < j < r@.len() ==> (#[trigger] r@[i].0@) != (#[trigger] r@[j].0@),
{
    t.iter_prefix_str(prefix).map(|(k, v)| (String::from(k.as_str()), *v)).collect()
}

/// The symbol map of one namespace.
pub struct SymbolMap {
    trie: Trie<BString, usize>,
}

impl View for SymbolMap {
    type V = Map<Seq<char>, usize>;

    closed spec fn view(&self) -> Map<Seq<char>, usize> {
        trie_entries(self.trie)
    }
}

/// A loaded section whose symbol may be added: its name, whether it is
/// global, and its number.
pub struct SymbolSection {
    pub name: String,
    pub global: bool,
    pub section: usize,
}

/// `SymbolSection` as a specification value.
pub struct SymbolSectionView {
    pub name: Seq<char>,
    pub global: bool,
    pub section: usize,
}

impl View for SymbolSection {
    type V = SymbolSectionView;

    open spec fn view(&self) -> SymbolSectionView {
        SymbolSectionView { name: self.name@, global: self.global, section: self.section }
    }
}

/// The views of a sequence of sections.
pub open spec fn section_views(s: Seq<SymbolSection>) -> Seq<SymbolSectionView> {
    s.map_values(|x: SymbolSection| x@)
}

/// The map after adding the first `n` sections that are kept (by `keep`)
/// and global, each replacing any section of the same name; with the number
/// of names that were new.
pub open spec fn added(m: Map<Seq<char>, usize>, secs: Seq<SymbolSectionView>, keep: Seq<bool>, n: int) -> (
    Map<Seq<char>, usize>,
    nat,
)
    decreases n,
{
    if n <= 0 {
        (m, 0)
    } else {
        let (m1, c) = added(m, secs, keep, n - 1);
        let s = secs[n - 1];
        if keep[n - 1] && s.global {
            (m1.insert(s.name, s.section), if m1.dom().contains(s.name) {
                c
            } else {
                c + 1
            })
        } else {
            (m1, c)
        }
    }
}

/// Adding keeps a map finite, and the count is the number of names gained.
proof fn lemma_added_len(m: Map<Seq<char>, usize>, secs: Seq<SymbolSectionView>, keep: Seq<bool>, n: int)
    requires
        m.dom().finite(),
    ensures
        added(m, secs, keep, n).0.dom().finite(),
        added(m, secs, keep, n).0.dom().len() == m.dom().len() + added(m, secs, keep, n).1,
    decreases n,
{
    if n > 0 {
        lemma_added_len(m, secs, keep, n - 1);
        let (m1, c) = added(m, secs, keep, n - 1);
        let s = secs[n - 1];
        if keep[n - 1] && s.global {
            vstd::set::axiom_set_insert_len(m1.dom(), s.name);
            assert(m1.insert(s.name, s.section).dom() == m1.dom().insert(s.name));
        }
    }
}

/// The symbols of the map whose names start with `prefix`.
pub open spec fn with_prefix(m: Map<Seq<char>, usize>, prefix: Seq<char>) -> Set<Seq<char>> {
    m.dom().filter(|k: Seq<char>| prefix.is_prefix_of(k))
}

impl SymbolMap {
    /// An empty symbol map.
    pub fn new() -> (r: SymbolMap)
        ensures
            r@ == no_entries(),
    {
        SymbolMap { trie: trie_new() }
    }

    /// Adds the symbol `name` of `section`, replacing the section of that
    /// name where there is one. Returns whether the symbol was new.
    pub fn add_symbol(&mut self, name: &str, section: usize) -> (added: bool)
        ensures
            added == !old(self)@.dom().contains(name@),
            final(self)@ == old(self)@.insert(name@, section),
    {
        match trie_insert(&mut self.trie, name, section) {
            Some(_) => false,
            None => true,
        }
    }

    /// Adds the symbols of the sections that are global, replacing sections
    /// of the same names. Returns the number of new symbols.
    pub fn add_symbols(&mut self, sections: &Vec<SymbolSection>) -> (count: usize)
        ensures
            ({
                let (m, c) = added(
                    old(self)@,
                    section_views(sections@),
                    Seq::new(sections@.len(), |i: int| true),
                    sections@.len() as int,
                );
                &&& final(self)@ == m
                &&& count == c
            }),
            old(self)@.dom().finite() ==> final(self)@.dom().finite() && final(self)@.dom().len() == old(
                self,
            )@.dom().len() + count,
    {
        let mut keep: Vec<bool> = Vec::new();
        let mut i: usize = 0;
        while i < sections.len()
            invariant
                i <= sections@.len(),
                keep@ == Seq::new(i as nat, |k: int| true),
            decreases sections@.len() - i,
        {
            keep.push(true);
            i = i + 1;
            assert(keep@ =~= Seq::new(i as nat, |k: int| true));
        }
        self.add_symbols_filtered(sections, &keep)
    }

    /// Adds the symbols of the sections that are both kept (by `keep`) and
    /// global, replacing sections of the same names. Returns the number of
    /// new symbols.
    pub fn add_symbols_filtered(&mut self, sections: &Vec<SymbolSection>, keep: &Vec<bool>) -> (count: usize)
        requires
            keep@.len() == sections@.len(),
        ensures
            ({
                let (m, c) = added(old(self)@, section_views(sections@), keep@, sections@.len() as int);
                &&& final(self)@ == m
                &&& count == c
            }),
            old(self)@.dom().finite() ==> final(self)@.dom().finite() && final(self)@.dom().len() == old(
                self,
            )@.dom().len() + count,
    {
        let ghost m0 = self@;
        let ghost secs = section_views(sections@);
        let mut count: usize = 0;
        let mut i: usize = 0;
        while i < sections.len()
            invariant
                i <= sections@.len(),
                keep@.len() == sections@.len(),
                secs == section_views(sections@),
                added(m0, secs, keep@, i as int) == (self@, count as nat),
                count <= i,
            decreases sections@.len() - i,
        {
            let sec = &sections[i];
            proof {
                assert(secs[i as int] == sec@);
            }
            if keep[i] && sec.global {
                let new = self.add_symbol(sec.name.as_str(), sec.section);
                if new {
                    count = count + 1;
                }
            }
            i = i + 1;
        }
        proof {
            if m0.dom().finite() {
                lemma_added_len(m0, secs, keep@, sections@.len() as int);
            }
        }
        count
    }

    /// Removes the symbol `name`; returns its section, if the map held it.
    pub fn remove_symbol(&mut self, name: &str) -> (r: Option<usize>)
        ensures
            r == lookup(old(self)@, name@),
            final(self)@ == old(self)@.remove(name@),
    {
        trie_remove(&mut self.trie, name)
    }

    /// A copy of this map, with the same symbols.
    pub fn duplicate(&self) -> (r: SymbolMap)
        ensures
            r@ == self@,
    {
        SymbolMap { trie: trie_clone(&self.trie) }
    }

    /// Returns the section of the symbol `name`, if the map holds it.
    pub fn get_symbol(&self, name: &str) -> (r: Option<usize>)
        ensures
            r == lookup(self@, name@),
    {
        trie_get(&self.trie, name)
    }

    /// Returns the symbols whose names start with `prefix`, each once, with
    /// their sections.
    pub fn find_symbols_starting_with(&self, prefix: &str) -> (r: Vec<(String, usize)>)
        ensures
            forall|i: int|
                0 <= i < r@.len() ==> prefix@.is_prefix_of(#[trigger] r@[i].0@) && lookup(self@, r@[i].0@) == Some(
                    r@[i].1,
                ),
            forall|k: Seq<char>|
                #![trigger self@.dom().contains(k)]
                self@.dom().contains(k) && prefix@.is_prefix_of(k) ==> exists|i: int|
                    0 <= i < r@.len() && (#[trigger] r@[i].0@) == k,
            forall|i: int, j: int| 0 <= i < j < r@.len() ==> (#[trigger] r@[i].0@) != (#[trigger] r@[j].0@),
    {
        trie_prefix_entries(&self.trie, prefix)
    }

    /// Returns the section of the one symbol whose name starts with
    /// `prefix`, or `None` where none or several do.
    pub fn get_symbol_starting_with(&self, prefix: &str) -> (r: Option<usize>)
        ensures
            match r {
                Some(v) => exists|k: Seq<char>|
                    with_prefix(self@, prefix@) == set![k] && #[trigger] lookup(self@, k) == Some(v),
                None => forall|k: Seq<char>| with_prefix(self@, prefix@) != set![k],
            },
    {
        let found = self.find_symbols_starting_with(prefix);
        if found.len() == 1 {
            let ghost k = found@[0].0@;
            proof {
                assert forall|x: Seq<char>| with_prefix(self@, prefix@).contains(x) <==> x == k by {
                    if with_prefix(self@, prefix@).contains(x) {
                        assert(self@.dom().contains(x));
                    }
                }
                assert(with_prefix(self@, prefix@) =~= set![k]);
                assert(lookup(self@, k) == Some(found@[0].1));
            }
            Some(found[0].1)
        } else {
            proof {
                assert forall|k: Seq<char>| with_prefix(self@, prefix@) != set![k] by {
                    if with_prefix(self@, prefix@) == set![k] {
                        assert(set![k].contains(k));
                        assert(self@.dom().contains(k));
                        let i = choose|i: int| 0 <= i < found@.len() && (#[trigger] found@[i].0@) == k;
                        if found@.len() > 1 {
                            let j = if i == 0 {
                                1int
                            } else {
                                0int
                            };
                            assert(with_prefix(self@, prefix@).contains(found@[j].0@));
                        }
                    }
                }
            }
            None
        }
    }
}

/// The map of the sections `secs` that are kept (by `keep`), each name
/// mapped to the last such section of that name, whether global or not.
pub open spec fn map_of(secs: Seq<SymbolSectionView>, keep: Seq<bool>, n: int) -> Map<Seq<char>, usize>
    decreases n,
{
    if n <= 0 {
        Map::empty()
    } else if keep[n - 1] {
        map_of(secs, keep, n - 1).insert(secs[n - 1].name, secs[n - 1].section)
    } else {
        map_of(secs, keep, n - 1)
    }
}

/// Builds the symbol map of the sections that are kept (by `keep`): a
/// later section of a name replaces an earlier one.
pub fn symbol_map(sections: &Vec<SymbolSection>, keep: &Vec<bool>) -> (r: SymbolMap)
    requires
        keep@.len() == sections@.len(),
    ensures
        r@ == map_of(section_views(sections@), keep@, sections@.len() as int),
{
    let ghost secs = section_views(sections@);
    let mut map = SymbolMap::new();
    let mut i: usize = 0;
    while i < sections.len()
        invariant
            i <= sections@.len(),
            keep@.len() == sections@.len(),
            secs == section_views(sections@),
            map@ == map_of(secs, keep@, i as int),
        decreases sections@.len() - i,
    {
        let sec = &sections[i];
        proof {
            assert(secs[i as int] == sec@);
        }
        if keep[i] {
            map.add_symbol(sec.name.as_str(), sec.section);
        }
        i = i + 1;
    }
    map
}

/// The first namespace of `chain`, from `i` on, whose map holds `name`,
/// with the section it maps `name` to.
pub open spec fn first_holding(chain: Seq<Map<Seq<char>, usize>>, name: Seq<char>, i: int) -> Option<(usize, int)>
    decreases chain.len() - i,
{
    if i < 0 || i >= chain.len() {
        None
    } else if chain[i].dom().contains(name) {
        Some((chain[i][name], i))
    } else {
        first_holding(chain, name, i + 1)
    }
}

pub(crate) proof fn lemma_first_holding_bounds(chain: Seq<Map<Seq<char>, usize>>, name: Seq<char>, i: int)
    requires
        0 <= i,
    ensures
        first_holding(chain, name, i) matches Some((v, j)) ==> i <= j < chain.len() && chain[j].dom().contains(name)
            && v == chain[j][name],
    decreases chain.len() - i,
{
    if i < chain.len() && !chain[i].dom().contains(name) {
        lemma_first_holding_bounds(chain, name, i + 1);
    }
}

/// The views of a chain of namespaces' maps: a namespace, then its
/// recursive namespace, and so on.
pub open spec fn chain_views(chain: Seq<SymbolMap>) -> Seq<Map<Seq<char>, usize>> {
    chain.map_values(|m: SymbolMap| m@)
}

/// Returns the section of the symbol `name` and the position in `chain`
/// of the namespace that holds it: the first namespace that does.
pub fn get_symbol_and_namespace(chain: &Vec<SymbolMap>, name: &str) -> (r: Option<(usize, usize)>)
    ensures
        match first_holding(chain_views(chain@), name@, 0) {
            Some((v, i)) => r matches Some((v2, j)) && v2 == v && j == i && 0 <= i < chain@.len(),
            None => r is None,
        },
{
    proof {
        lemma_first_holding_bounds(chain_views(chain@), name@, 0);
    }
    let ghost views = chain_views(chain@);
    let mut i: usize = chain.len();
    let mut result: Option<(usize, usize)> = None;
    while i > 0
        invariant
            i <= chain@.len(),
            views == chain_views(chain@),
            match first_holding(views, name@, i as int) {
                Some((v, j)) => result matches Some((v2, j2)) && v2 == v && j2 == j,
                None => result is None,
            },
        decreases i,
    {
        i = i - 1;
        proof {
            assert(views[i as int] == chain@[i as int]@);
        }
        match chain[i].get_symbol(name) {
            Some(v) => {
                result = Some((v, i));
            },
            None => {},
        }
    }
    result
}

/// Returns the section of the one symbol whose name starts with `prefix`
/// across all the namespaces of `chain`, where exactly one symbol of all of
/// them matches; `None` where none or several do.
pub fn get_symbol_starting_with(chain: &Vec<SymbolMap>, prefix: &str) -> (r: Option<usize>)
    ensures
        match single_chain_match(chain_views(chain@), prefix@) {
            Some((v, _, _)) => r == Some(v),
            None => r is None,
        },
{
    let found = find_symbols_starting_with_and_namespace(chain, prefix);
    let ghost views = chain_views(chain@);
    let ghost pre = prefix@;
    if found.len() == 1 {
        let ghost p = (found@[0].2 as int, found@[0].0@);
        proof {
            assert(views[p.0] == chain@[p.0]@);
            assert forall|x: (int, Seq<char>)| chain_matches(views, pre).contains(x) <==> x == p by {
                if chain_matches(views, pre).contains(x) {
                    assert(views[x.0] == chain@[x.0]@);
                    assert(chain@[x.0]@.dom().contains(x.1));
                }
            }
            assert(chain_matches(views, pre) =~= set![p]);
            let q = choose|q: (int, Seq<char>)| chain_matches(views, pre) == set![q];
            assert(set![q].contains(q));
            assert(set![p].contains(q));
        }
        Some(found[0].1)
    } else {
        proof {
            assert forall|p: (int, Seq<char>)| chain_matches(views, pre) != set![p] by {
                if chain_matches(views, pre) == set![p] {
                    assert(set![p].contains(p));
                    assert(views[p.0] == chain@[p.0]@);
                    assert(chain@[p.0]@.dom().contains(p.1));
                    let i = choose|i: int| 0 <= i < found@.len() && (#[trigger] found@[i]).0@ == p.1 && found@[i].2 == p.0;
                    if found@.len() > 1 {
                        let j = if i == 0 {
                            1int
                        } else {
                            0int
                        };
                        let e = found@[j];
                        assert(views[e.2 as int] == chain@[e.2 as int]@);
                        assert(chain_matches(views, pre).contains((e.2 as int, e.0@)));
                        if i < j {
                            assert(found@[i].2 < found@[j].2 || (found@[i].2 == found@[j].2 && found@[i].0@ != found@[j].0@));
                        } else {
                            assert(found@[j].2 < found@[i].2 || (found@[j].2 == found@[i].2 && found@[j].0@ != found@[i].0@));
                        }
                    }
                }
            }
        }
        None
    }
}

/// A symbol that was added is found again with the section it was added
/// with, and adding it leaves every other symbol as it was.
pub proof fn law_added_symbol_is_found(m: Map<Seq<char>, usize>, name: Seq<char>, section: usize, other: Seq<char>)
    ensures
        lookup(m.insert(name, section), name) == Some(section),
        other != name ==> lookup(m.insert(name, section), other) == lookup(m, other),
{
}

/// The symbols of the namespaces of `chain` whose names start with
/// `prefix`, each with the position of its namespace.
pub open spec fn chain_matches(chain: Seq<Map<Seq<char>, usize>>, prefix: Seq<char>) -> Set<(int, Seq<char>)> {
    Set::new(
        |p: (int, Seq<char>)|
            0 <= p.0 < chain.len() && chain[p.0].dom().contains(p.1) && prefix.is_prefix_of(p.1),
    )
}

/// Returns the symbols of each namespace of `chain`, in the chain's order,
/// whose names start with `prefix`: each with its section and the position
/// of its namespace, once each.
pub fn find_symbols_starting_with_and_namespace(chain: &Vec<SymbolMap>, prefix: &str) -> (r: Vec<(String, usize, usize)>)
    ensures
        forall|i: int|
            0 <= i < r@.len() ==> {
                let e = #[trigger] r@[i];
                &&& e.2 < chain@.len()
                &&& prefix@.is_prefix_of(e.0@)
                &&& lookup(chain@[e.2 as int]@, e.0@) == Some(e.1)
            },
        forall|ns: int, k: Seq<char>|
            #![trigger chain@[ns]@.dom().contains(k)]
            0 <= ns < chain@.len() && chain@[ns]@.dom().contains(k) && prefix@.is_prefix_of(k) ==> exists|i: int|
                0 <= i < r@.len() && (#[trigger] r@[i]).0@ == k && r@[i].2 == ns,
        forall|i: int, j: int|
            0 <= i < j < r@.len() ==> (#[trigger] r@[i]).2 < (#[trigger] r@[j]).2 || (r@[i].2 == r@[j].2 && r@[i].0@
                != r@[j].0@),
{
    let mut r: Vec<(String, usize, usize)> = Vec::new();
    let mut ns: usize = 0;
    while ns < chain.len()
        invariant
            ns <= chain@.len(),
            forall|i: int|
                0 <= i < r@.len() ==> {
                    let e = #[trigger] r@[i];
                    &&& e.2 < ns
                    &&& prefix@.is_prefix_of(e.0@)
                    &&& lookup(chain@[e.2 as int]@, e.0@) == Some(e.1)
                },
            forall|n: int, k: Seq<char>|
                #![trigger chain@[n]@.dom().contains(k)]
                0 <= n < ns && chain@[n]@.dom().contains(k) && prefix@.is_prefix_of(k) ==> exists|i: int|
                    0 <= i < r@.len() && (#[trigger] r@[i]).0@ == k && r@[i].2 == n,
            forall|i: int, j: int|
                0 <= i < j < r@.len() ==> (#[trigger] r@[i]).2 < (#[trigger] r@[j]).2 || (r@[i].2 == r@[j].2
                    && r@[i].0@ != r@[j].0@),
        decreases chain@.len() - ns,
    {
        let found = chain[ns].find_symbols_starting_with(prefix);
        let ghost before = r@;
        let mut j: usize = 0;
        while j < found.len()
            invariant
                ns < chain@.len(),
                j <= found@.len(),
                r@.len() == before.len() + j,
                forall|i: int| 0 <= i < before.len() ==> r@[i] == before[i],
                forall|i: int| 0 <= i < j ==> r@[before.len() + i] == (found@[i].0, found@[i].1, ns),
                forall|i: int|
                    0 <= i < before.len() ==> {
                        let e = #[trigger] before[i];
                        &&& e.2 < ns
                        &&& prefix@.is_prefix_of(e.0@)
                        &&& lookup(chain@[e.2 as int]@, e.0@) == Some(e.1)
                    },
                forall|i: int, k: int|
                    0 <= i < k < before.len() ==> (#[trigger] before[i]).2 < (#[trigger] before[k]).2 || (before[i].2
                        == before[k].2 && before[i].0@ != before[k].0@),
                forall|i: int|
                    0 <= i < found@.len() ==> prefix@.is_prefix_of(#[trigger] found@[i].0@) && lookup(
                        chain@[ns as int]@,
                        found@[i].0@,
                    ) == Some(found@[i].1),
                forall|i: int, k: int| 0 <= i < k < found@.len() ==> (#[trigger] found@[i].0@) != (#[trigger] found@[k].0@),
            decreases found@.len() - j,
        {
            let (name, sec) = &found[j];
            r.push((name.clone(), *sec, ns));
            j = j + 1;
        }
        proof {
            assert forall|i: int| 0 <= i < r@.len() implies {
                let e = #[trigger] r@[i];
                &&& e.2 < ns + 1
                &&& prefix@.is_prefix_of(e.0@)
                &&& lookup(chain@[e.2 as int]@, e.0@) == Some(e.1)
            } by {
                if i >= before.len() {
                    let q = i - before.len();
                    assert(r@[i] == (found@[q].0, found@[q].1, ns));
                    assert(prefix@.is_prefix_of(found@[q].0@));
                } else {
                    assert(r@[i] == before[i]);
                    let e = before[i];
                    assert(e.2 < ns);
                }
            }
            assert forall|n: int, k: Seq<char>|
                #![trigger chain@[n]@.dom().contains(k)]
                0 <= n < ns + 1 && chain@[n]@.dom().contains(k) && prefix@.is_prefix_of(k) implies exists|i: int|
                    0 <= i < r@.len() && (#[trigger] r@[i]).0@ == k && r@[i].2 == n by {
                if n == ns {
                    let q = choose|q: int| 0 <= q < found@.len() && (#[trigger] found@[q].0@) == k;
                    assert(r@[before.len() + q] == (found@[q].0, found@[q].1, ns));
                } else {
                    let q = choose|q: int| 0 <= q < before.len() && (#[trigger] before[q]).0@ == k && before[q].2 == n;
                    assert(r@[q] == before[q]);
                }
            }
            assert forall|i: int, k: int|
                0 <= i < k < r@.len() implies (#[trigger] r@[i]).2 < (#[trigger] r@[k]).2 || (r@[i].2 == r@[k].2
                    && r@[i].0@ != r@[k].0@) by {
                if k >= before.len() {
                    let qk = k - before.len();
                    assert(r@[k] == (found@[qk].0, found@[qk].1, ns));
                    if i >= before.len() {
                        let qi = i - before.len();
                        assert(r@[i] == (found@[qi].0, found@[qi].1, ns));
                        assert(found@[qi].0@ != found@[qk].0@);
                    } else {
                        assert(r@[i] == before[i]);
                        let e = before[i];
                        assert(e.2 < ns);
                    }
                } else {
                    assert(r@[i] == before[i]);
                    assert(r@[k] == before[k]);
                    assert(before[i].2 < before[k].2 || (before[i].2 == before[k].2 && before[i].0@ != before[k].0@));
                }
            }
        }
        ns = ns + 1;
    }
    r
}

/// The one symbol of all the namespaces of `chain` whose name starts with
/// `prefix`, if exactly one does: its section, the position of its
/// namespace and its name.
pub open spec fn single_chain_match(chain: Seq<Map<Seq<char>, usize>>, prefix: Seq<char>) -> Option<(usize, int, Seq<char>)> {
    if exists|p: (int, Seq<char>)| chain_matches(chain, prefix) == set![p] {
        let p = choose|p: (int, Seq<char>)| chain_matches(chain, prefix) == set![p];
        Some((chain[p.0][p.1], p.0, p.1))
    } else {
        None
    }
}

/// A symbol found in a backup namespace: its name, its section and the
/// position of its namespace in the backup chain.
pub struct BackupMatch {
    pub name: String,
    pub section: usize,
    pub namespace: usize,
}

/// What the search of the backup chain finds for `name`: with exact
/// matching, the first namespace holding `name`; with fuzzy matching, the
/// one symbol across the chain whose name starts with `name` without its
/// hash, where there is exactly one.
pub open spec fn backup_match(backup: Seq<Map<Seq<char>, usize>>, name: Seq<char>, fuzzy: bool) -> Option<(usize, int, Seq<char>)> {
    if !fuzzy {
        match first_holding(backup, name, 0) {
            Some((v, i)) => Some((v, i, name)),
            None => None,
        }
    } else {
        single_chain_match(backup, spec_section_name_without_hash(name))
    }
}

/// Looks for the symbol `name` in the backup chain of namespaces `backup`,
/// by its exact name or, with `fuzzy`, ignoring its hash (where a single
/// symbol matches).
pub fn get_symbol_from_backup_namespace(backup: &Vec<SymbolMap>, name: &str, fuzzy: bool) -> (r: Option<BackupMatch>)
    ensures
        match backup_match(chain_views(backup@), name@, fuzzy) {
            Some((v, ns, k)) => r matches Some(m) && m.section == v && m.namespace == ns && m.name@ == k,
            None => r is None,
        },
{
    if !fuzzy {
        return match get_symbol_and_namespace(backup, name) {
            Some((section, namespace)) => Some(BackupMatch { name: name.to_owned(), section, namespace }),
            None => None,
        };
    }
    let prefix = section_name_without_hash(name);
    let found = find_symbols_starting_with_and_namespace(backup, prefix);
    let ghost views = chain_views(backup@);
    let ghost pre = prefix@;
    if found.len() == 1 {
        let ghost p = (found@[0].2 as int, found@[0].0@);
        proof {
            assert(views[p.0] == backup@[p.0]@);
            assert forall|x: (int, Seq<char>)| chain_matches(views, pre).contains(x) <==> x == p by {
                if chain_matches(views, pre).contains(x) {
                    assert(views[x.0] == backup@[x.0]@);
                    assert(backup@[x.0]@.dom().contains(x.1));
                }
            }
            assert(chain_matches(views, pre) =~= set![p]);
            let q = choose|q: (int, Seq<char>)| chain_matches(views, pre) == set![q];
            assert(set![q].contains(q));
            assert(set![p].contains(q));
        }
        let (n, section, namespace) = &found[0];
        Some(BackupMatch { name: n.clone(), section: *section, namespace: *namespace })
    } else {
        proof {
            assert forall|p: (int, Seq<char>)| chain_matches(views, pre) != set![p] by {
                if chain_matches(views, pre) == set![p] {
                    assert(set![p].contains(p));
                    assert(views[p.0] == backup@[p.0]@);
                    assert(backup@[p.0]@.dom().contains(p.1));
                    let i = choose|i: int| 0 <= i < found@.len() && (#[trigger] found@[i]).0@ == p.1 && found@[i].2 == p.0;
                    if found@.len() > 1 {
                        let j = if i == 0 {
                            1int
                        } else {
                            0int
                        };
                        let e = found@[j];
                        assert(views[e.2 as int] == backup@[e.2 as int]@);
                        assert(chain_matches(views, pre).contains((e.2 as int, e.0@)));
                        if i < j {
                            assert(found@[i].2 < found@[j].2 || (found@[i].2 == found@[j].2 && found@[i].0@ != found@[j].0@));
                        } else {
                            assert(found@[j].2 < found@[i].2 || (found@[j].2 == found@[i].2 && found@[j].0@ != found@[i].0@));
                        }
                    }
                }
            }
        }
        None
    }
}

/// Where the symbol that a relocation needs comes from.
pub enum SymbolLookup {
    /// Already in the namespace or one of its recursive namespaces
    Found { section: usize, namespace: usize },
    /// Found in the backup namespace chain, to be added to the namespace
    FromBackup(BackupMatch),
    /// Nowhere yet: the crate that may hold it is to be loaded
    Missing,
}

/// Where the symbol `name` comes from, as a specification value: the
/// section and namespace position where found in the own chain or in the
/// backup chain (with the name found there), or nowhere.
pub enum LookupOutcome {
    Found(usize, int),
    FromBackup(usize, int, Seq<char>),
    Missing,
}

/// Where the symbol `name` comes from: the first namespace of the own chain
/// `own` that holds it; else, with a backup chain, the backup chain by
/// exact name and then, where `fuzzy`, ignoring the hash; else nowhere.
pub open spec fn lookup_outcome(
    own: Seq<Map<Seq<char>, usize>>,
    backup: Option<Seq<Map<Seq<char>, usize>>>,
    fuzzy: bool,
    name: Seq<char>,
) -> LookupOutcome {
    match first_holding(own, name, 0) {
        Some((v, i)) => LookupOutcome::Found(v, i),
        None => match backup {
            None => LookupOutcome::Missing,
            Some(b) => match backup_match(b, name, false) {
                Some((v, ns, k)) => LookupOutcome::FromBackup(v, ns, k),
                None => if fuzzy {
                    match backup_match(b, name, true) {
                        Some((v, ns, k)) => LookupOutcome::FromBackup(v, ns, k),
                        None => LookupOutcome::Missing,
                    }
                } else {
                    LookupOutcome::Missing
                },
            },
        },
    }
}

/// Whether the decision `r` is the outcome `o`.
pub open spec fn lookup_is(r: SymbolLookup, o: LookupOutcome) -> bool {
    match o {
        LookupOutcome::Found(v, i) => r matches SymbolLookup::Found { section, namespace } && section == v
            && namespace == i,
        LookupOutcome::FromBackup(v, ns, k) => r matches SymbolLookup::FromBackup(m) && m.section == v && m.namespace
            == ns && m.name@ == k,
        LookupOutcome::Missing => r is Missing,
    }
}

/// A symbol that the namespace or one of its recursive namespaces holds is
/// found there, in the first namespace that holds it: nothing is taken from
/// the backup chain and no crate is loaded for it, whatever the backup chain
/// and the matching setting.
pub proof fn law_found_symbol_loads_nothing(
    own: Seq<Map<Seq<char>, usize>>,
    backup: Option<Seq<Map<Seq<char>, usize>>>,
    fuzzy: bool,
    name: Seq<char>,
    i: int,
)
    requires
        0 <= i < own.len(),
        own[i].dom().contains(name),
        forall|j: int| 0 <= j < i ==> !own[j].dom().contains(name),
    ensures
        lookup_outcome(own, backup, fuzzy, name) == LookupOutcome::Found(own[i][name], i),
{
    lemma_first_holding_reaches(own, name, 0, i);
}

/// The first namespace from `j` on that holds `name` is `i` where `i` holds
/// it and none between `j` and `i` does.
proof fn lemma_first_holding_reaches(chain: Seq<Map<Seq<char>, usize>>, name: Seq<char>, j: int, i: int)
    requires
        0 <= j <= i < chain.len(),
        chain[i].dom().contains(name),
        forall|k: int| j <= k < i ==> !chain[k].dom().contains(name),
    ensures
        first_holding(chain, name, j) == Some((chain[i][name], i)),
    decreases i - j,
{
    if j < i {
        lemma_first_holding_reaches(chain, name, j + 1, i);
    }
}

/// Decides where the symbol `name` comes from: the namespace's own chain
/// `own` first, then the backup chain by exact name, then (where fuzzy
/// matching is enabled) the backup chain ignoring the hash; otherwise the
/// crate that may hold it must be loaded.
pub fn get_symbol_or_load(own: &Vec<SymbolMap>, backup: Option<&Vec<SymbolMap>>, fuzzy_matching: bool, name: &str) -> (r:
    SymbolLookup)
    ensures
        lookup_is(
            r,
            lookup_outcome(
                chain_views(own@),
                match backup {
                    Some(b) => Some(chain_views(b@)),
                    None => None,
                },
                fuzzy_matching,
                name@,
            ),
        ),
{
    if let Some((section, namespace)) = get_symbol_and_namespace(own, name) {
        return SymbolLookup::Found { section, namespace };
    }
    match backup {
        None => SymbolLookup::Missing,
        Some(b) => {
            if let Some(m) = get_symbol_from_backup_namespace(b, name, false) {
                return SymbolLookup::FromBackup(m);
            }
            if fuzzy_matching {
                if let Some(m) = get_symbol_from_backup_namespace(b, name, true) {
                    return SymbolLookup::FromBackup(m);
                }
            }
            SymbolLookup::Missing
        },
    }
}


} // verus!
