//! A crate namespace: its name, the crates loaded into it (each crate's name
//! mapped to the number the caller knows the crate by, in a `qp_trie`
//! trie), its symbol map, and whether a missing symbol may be matched
//! without its hash. Crates are looked up along a chain of namespaces, where
//! a namespace falls back on its recursive one.

use vstd::prelude::*;
use qp_trie::Trie;
use qp_trie::wrapper::BString;
use crate::symbol_map::{
    added, chain_matches, first_holding, lemma_first_holding_bounds, lookup, no_entries, section_views,
    single_chain_match, trie_clone, trie_entries, trie_get, trie_insert, trie_new, trie_prefix_entries, trie_remove,
    BackupMatch, SymbolMap, SymbolSection,
};

verus! {

/// A namespace of loaded crates and their global symbols.
pub struct CrateNamespace {
    name: String,
    crate_tree: Trie<BString, usize>,
    symbol_map: SymbolMap,
    fuzzy_symbol_matching: bool,
}

/// `CrateNamespace` as a specification value.
pub struct NamespaceView {
    pub name: Seq<char>,
    pub crates: Map<Seq<char>, usize>,
    pub symbols: Map<Seq<char>, usize>,
    pub fuzzy: bool,
}

impl View for CrateNamespace {
    type V = NamespaceView;

    closed spec fn view(&self) -> NamespaceView {
        NamespaceView {
            name: self.name@,
            crates: trie_entries(self.crate_tree),
            symbols: self.symbol_map@,
            fuzzy: self.fuzzy_symbol_matching,
        }
    }
}

/// The names of `names` as a set.
pub open spec fn name_set(names: Seq<String>) -> Set<Seq<char>> {
    Set::new(|k: Seq<char>| exists|i: int| 0 <= i < names.len() && (#[trigger] names[i])@ == k)
}

impl CrateNamespace {
    /// A namespace named `name` without crates or symbols, in which symbols
    /// are matched exactly.
    pub fn new(name: String) -> (r: CrateNamespace)
        ensures
            r@ == (NamespaceView { name: name@, crates: no_entries(), symbols: no_entries(), fuzzy: false }),
    {
        CrateNamespace { name, crate_tree: trie_new(), symbol_map: SymbolMap::new(), fuzzy_symbol_matching: false }
    }

    /// The namespace's name.
    pub fn name(&self) -> (r: &str)
        ensures
            r@ == self@.name,
    {
        self.name.as_str()
    }

    /// The namespace's symbol map.
    pub fn symbol_map(&self) -> (r: &SymbolMap)
        ensures
            r@ == self@.symbols,
    {
        &self.symbol_map
    }

    /// Whether a missing symbol may be matched without its hash.
    pub fn fuzzy_symbol_matching(&self) -> (r: bool)
        ensures
            r == self@.fuzzy,
    {
        self.fuzzy_symbol_matching
    }

    /// Lets a missing symbol be matched without its hash, where one symbol
    /// matches.
    pub fn enable_fuzzy_symbol_matching(&mut self)
        ensures
            final(self)@ == (NamespaceView { fuzzy: true, ..old(self)@ }),
    {
        self.fuzzy_symbol_matching = true;
    }

    /// Makes symbols be matched exactly again.
    pub fn disable_fuzzy_symbol_matching(&mut self)
        ensures
            final(self)@ == (NamespaceView { fuzzy: false, ..old(self)@ }),
    {
        self.fuzzy_symbol_matching = false;
    }

    /// Adds the global symbols of `sections` to the symbol map, replacing
    /// symbols of the same names. Returns the number of new symbols.
    pub fn add_symbols(&mut self, sections: &Vec<SymbolSection>) -> (count: usize)
        ensures
            ({
                let (m, c) = added(
                    old(self)@.symbols,
                    section_views(sections@),
                    Seq::new(sections@.len(), |i: int| true),
                    sections@.len() as int,
                );
                &&& final(self)@.symbols == m
                &&& count == c
            }),
            final(self)@.crates == old(self)@.crates,
            final(self)@.name == old(self)@.name,
            final(self)@.fuzzy == old(self)@.fuzzy,
    {
        self.symbol_map.add_symbols(sections)
    }

    /// Takes a symbol found in a backup namespace into this one: adds it to
    /// the symbol map where its section is global (one symbol only, not the
    /// others of its crate), and adds its section's parent crate
    /// `parent_crate` under `parent_crate_name`, so that the crate stays
    /// while this namespace relies on it.
    pub fn adopt_backup_symbol(&mut self, found: &BackupMatch, global: bool, parent_crate_name: &str, parent_crate: usize)
        ensures
            final(self)@.symbols == (if global {
                old(self)@.symbols.insert(found.name@, found.section)
            } else {
                old(self)@.symbols
            }),
            final(self)@.crates == old(self)@.crates.insert(parent_crate_name@, parent_crate),
            final(self)@.name == old(self)@.name,
            final(self)@.fuzzy == old(self)@.fuzzy,
    {
        if global {
            self.symbol_map.add_symbol(found.name.as_str(), found.section);
        }
        trie_insert(&mut self.crate_tree, parent_crate_name, parent_crate);
    }

    /// The crate of this namespace (not of its recursive ones) named
    /// `crate_name`, if any.
    pub fn crate_here(&self, crate_name: &str) -> (r: Option<usize>)
        ensures
            r == lookup(self@.crates, crate_name@),
    {
        trie_get(&self.crate_tree, crate_name)
    }

    /// The crates of this namespace whose names start with `prefix`, each
    /// once, with their numbers.
    fn crates_here_starting_with(&self, prefix: &str) -> (r: Vec<(String, usize)>)
        ensures
            forall|i: int|
                0 <= i < r@.len() ==> prefix@.is_prefix_of(#[trigger] r@[i].0@) && lookup(self@.crates, r@[i].0@)
                    == Some(r@[i].1),
            forall|k: Seq<char>|
                #![trigger self@.crates.dom().contains(k)]
                self@.crates.dom().contains(k) && prefix@.is_prefix_of(k) ==> exists|i: int|
                    0 <= i < r@.len() && (#[trigger] r@[i].0@) == k,
            forall|i: int, j: int| 0 <= i < j < r@.len() ==> (#[trigger] r@[i].0@) != (#[trigger] r@[j].0@),
    {
        trie_prefix_entries(&self.crate_tree, prefix)
    }

    /// Adds the global symbols of `sections` to the symbol map (replacing
    /// symbols of the same names), then the crate `crate_id` under
    /// `crate_name`, as loading a crate does once its sections are loaded
    /// and relocated. Returns the number of new symbols.
    pub fn add_loaded_crate(&mut self, crate_name: &str, crate_id: usize, sections: &Vec<SymbolSection>) -> (count:
        usize)
        ensures
            ({
                let (m, c) = added(
                    old(self)@.symbols,
                    section_views(sections@),
                    Seq::new(sections@.len(), |i: int| true),
                    sections@.len() as int,
                );
                &&& final(self)@.symbols == m
                &&& count == c
            }),
            final(self)@.crates == old(self)@.crates.insert(crate_name@, crate_id),
            final(self)@.name == old(self)@.name,
            final(self)@.fuzzy == old(self)@.fuzzy,
    {
        let count = self.symbol_map.add_symbols(sections);
        trie_insert(&mut self.crate_tree, crate_name, crate_id);
        count
    }

    /// Removes the application crate `crate_name` and, where the namespace
    /// held it, the symbols `global_symbols` of its global sections.
    /// Returns whether the namespace held the crate.
    pub fn remove_app_crate(&mut self, crate_name: &str, global_symbols: &Vec<String>) -> (removed: bool)
        ensures
            removed == old(self)@.crates.dom().contains(crate_name@),
            final(self)@.crates == old(self)@.crates.remove(crate_name@),
            removed ==> final(self)@.symbols == old(self)@.symbols.remove_keys(name_set(global_symbols@)),
            !removed ==> final(self)@.symbols == old(self)@.symbols,
            final(self)@.name == old(self)@.name,
            final(self)@.fuzzy == old(self)@.fuzzy,
    {
        let ghost crates0 = self@.crates;
        match trie_remove(&mut self.crate_tree, crate_name) {
            None => {
                proof {
                    assert(crates0.remove(crate_name@) =~= crates0);
                }
                false
            },
            Some(_) => {
                let ghost m0 = self.symbol_map@;
                let ghost crates1 = self@.crates;
                let ghost name0 = self@.name;
                let ghost fuzzy0 = self@.fuzzy;
                let mut i: usize = 0;
                while i < global_symbols.len()
                    invariant
                        i <= global_symbols@.len(),
                        self@.crates == crates1,
                        self@.name == name0,
                        self@.fuzzy == fuzzy0,
                        self.symbol_map@ == m0.remove_keys(name_set(global_symbols@.take(i as int))),
                    decreases global_symbols@.len() - i,
                {
                    self.symbol_map.remove_symbol(global_symbols[i].as_str());
                    proof {
                        let before = global_symbols@.take(i as int);
                        let after = global_symbols@.take(i + 1);
                        assert forall|k: Seq<char>| name_set(after).contains(k) <==> (name_set(before).contains(k)
                            || k == global_symbols@[i as int]@) by {
                            if name_set(after).contains(k) {
                                let j = choose|j: int| 0 <= j < after.len() && (#[trigger] after[j])@ == k;
                                if j < i {
                                    assert(before[j] == after[j]);
                                }
                            }
                            if name_set(before).contains(k) {
                                let j = choose|j: int| 0 <= j < before.len() && (#[trigger] before[j])@ == k;
                                assert(after[j] == before[j]);
                            }
                            if k == global_symbols@[i as int]@ {
                                assert(after[i as int] == global_symbols@[i as int]);
                            }
                        }
                        assert(m0.remove_keys(name_set(after)) =~= m0.remove_keys(name_set(before)).remove(
                            global_symbols@[i as int]@,
                        ));
                    }
                    i = i + 1;
                }
                proof {
                    assert(global_symbols@.take(global_symbols@.len() as int) =~= global_symbols@);
                }
                true
            },
        }
    }

    /// A copy of this namespace, with the same name, crates, symbols and
    /// matching setting.
    pub fn clone_on_write(&self) -> (r: CrateNamespace)
        ensures
            r@ == self@,
    {
        CrateNamespace {
            name: self.name.clone(),
            crate_tree: trie_clone(&self.crate_tree),
            symbol_map: self.symbol_map.duplicate(),
            fuzzy_symbol_matching: self.fuzzy_symbol_matching,
        }
    }
}


/// The crate maps of a chain of namespaces: a namespace, then its recursive
/// namespace, and so on.
pub open spec fn crate_views(chain: Seq<CrateNamespace>) -> Seq<Map<Seq<char>, usize>> {
    chain.map_values(|n: CrateNamespace| n@.crates)
}

/// Returns the crate named `crate_name` and the position in `chain` of the
/// namespace that holds it: the first namespace that does.
pub fn get_crate_and_namespace(chain: &Vec<CrateNamespace>, crate_name: &str) -> (r: Option<(usize, usize)>)
    ensures
        match first_holding(crate_views(chain@), crate_name@, 0) {
            Some((v, i)) => r matches Some((v2, j)) && v2 == v && j == i && 0 <= i < chain@.len(),
            None => r is None,
        },
{
    proof {
        lemma_first_holding_bounds(crate_views(chain@), crate_name@, 0);
    }
    let ghost views = crate_views(chain@);
    let mut i: usize = chain.len();
    let mut result: Option<(usize, usize)> = None;
    while i > 0
        invariant
            i <= chain@.len(),
            views == crate_views(chain@),
            match first_holding(views, crate_name@, i as int) {
                Some((v, j)) => result matches Some((v2, j2)) && v2 == v && j2 == j,
                None => result is None,
            },
        decreases i,
    {
        i = i - 1;
        proof {
            assert(views[i as int] == chain@[i as int]@.crates);
        }
        match chain[i].crate_here(crate_name) {
            Some(v) => {
                result = Some((v, i));
            },
            None => {},
        }
    }
    result
}

/// Returns the crate named `crate_name` in the first namespace of `chain`
/// that holds one.
pub fn get_crate(chain: &Vec<CrateNamespace>, crate_name: &str) -> (r: Option<usize>)
    ensures
        match first_holding(crate_views(chain@), crate_name@, 0) {
            Some((v, _)) => r == Some(v),
            None => r is None,
        },
{
    match get_crate_and_namespace(chain, crate_name) {
        Some((c, _)) => Some(c),
        None => None,
    }
}

/// Returns the crates of each namespace of `chain`, in the chain's order,
/// whose names start with `prefix`: each with its number and the position
/// of its namespace, once each.
pub fn get_crates_starting_with(chain: &Vec<CrateNamespace>, prefix: &str) -> (r: Vec<(String, usize, usize)>)
    ensures
        forall|i: int|
            0 <= i < r@.len() ==> {
                let e = #[trigger] r@[i];
                &&& e.2 < chain@.len()
                &&& prefix@.is_prefix_of(e.0@)
                &&& lookup(chain@[e.2 as int]@.crates, e.0@) == Some(e.1)
            },
        forall|ns: int, k: Seq<char>|
            #![trigger chain@[ns]@.crates.dom().contains(k)]
            0 <= ns < chain@.len() && chain@[ns]@.crates.dom().contains(k) && prefix@.is_prefix_of(k) ==> exists|i: int|
                0 <= i < r@.len() && (#[trigger] r@[i]).0@ == k && r@[i].2 == ns,
        forall|i: int, j: int|
            0 <= i < j < r@.len() ==> (#[trigger] r@[i]).2 < (#[trigger] r@[j]).2 || (r@[i].2 == r@[j].2 && r@[i].0@
                != r@[j].0@),
{
    let mut r: Vec<(String, usize, usize)> = Vec::new();
    let mut ns: usize = 0;
    while ns < chain.len()
        invariant
            ns <= chain@.len(),
            forall|i: int|
                0 <= i < r@.len() ==> {
                    let e = #[trigger] r@[i];
                    &&& e.2 < ns
                    &&& prefix@.is_prefix_of(e.0@)
                    &&& lookup(chain@[e.2 as int]@.crates, e.0@) == Some(e.1)
                },
            forall|n: int, k: Seq<char>|
                #![trigger chain@[n]@.crates.dom().contains(k)]
                0 <= n < ns && chain@[n]@.crates.dom().contains(k) && prefix@.is_prefix_of(k) ==> exists|i: int|
                    0 <= i < r@.len() && (#[trigger] r@[i]).0@ == k && r@[i].2 == n,
            forall|i: int, j: int|
                0 <= i < j < r@.len() ==> (#[trigger] r@[i]).2 < (#[trigger] r@[j]).2 || (r@[i].2 == r@[j].2
                    && r@[i].0@ != r@[j].0@),
        decreases chain@.len() - ns,
    {
        let found = chain[ns].crates_here_starting_with(prefix);
        let ghost before = r@;
        let mut j: usize = 0;
        while j < found.len()
            invariant
                ns < chain@.len(),
                j <= found@.len(),
                r@.len() == before.len() + j,
                forall|i: int| 0 <= i < before.len() ==> r@[i] == before[i],
                forall|i: int| 0 <= i < j ==> r@[before.len() + i] == (found@[i].0, found@[i].1, ns),
                forall|i: int|
                    0 <= i < before.len() ==> {
                        let e = #[trigger] before[i];
                        &&& e.2 < ns
                        &&& prefix@.is_prefix_of(e.0@)
                        &&& lookup(chain@[e.2 as int]@.crates, e.0@) == Some(e.1)
                    },
                forall|i: int, k: int|
                    0 <= i < k < before.len() ==> (#[trigger] before[i]).2 < (#[trigger] before[k]).2 || (before[i].2
                        == before[k].2 && before[i].0@ != before[k].0@),
                forall|i: int|
                    0 <= i < found@.len() ==> prefix@.is_prefix_of(#[trigger] found@[i].0@) && lookup(
                        chain@[ns as int]@.crates,
                        found@[i].0@,
                    ) == Some(found@[i].1),
                forall|i: int, k: int| 0 <= i < k < found@.len() ==> (#[trigger] found@[i].0@) != (#[trigger] found@[k].0@),
            decreases found@.len() - j,
        {
            let (name, c) = &found[j];
            r.push((name.clone(), *c, ns));
            j = j + 1;
        }
        proof {
            assert forall|i: int| 0 <= i < r@.len() implies {
                let e = #[trigger] r@[i];
                &&& e.2 < ns + 1
                &&& prefix@.is_prefix_of(e.0@)
                &&& lookup(chain@[e.2 as int]@.crates, e.0@) == Some(e.1)
            } by {
                if i >= before.len() {
                    let q = i - before.len();
                    assert(r@[i] == (found@[q].0, found@[q].1, ns));
                    assert(prefix@.is_prefix_of(found@[q].0@));
                } else {
                    assert(r@[i] == before[i]);
                    let e = before[i];
                    assert(e.2 < ns);
                }
            }
            assert forall|n: int, k: Seq<char>|
                #![trigger chain@[n]@.crates.dom().contains(k)]
                0 <= n < ns + 1 && chain@[n]@.crates.dom().contains(k) && prefix@.is_prefix_of(k) implies exists|
                    i: int,
                | 0 <= i < r@.len() && (#[trigger] r@[i]).0@ == k && r@[i].2 == n by {
                if n == ns {
                    let q = choose|q: int| 0 <= q < found@.len() && (#[trigger] found@[q].0@) == k;
                    assert(r@[before.len() + q] == (found@[q].0, found@[q].1, ns));
                } else {
                    let q = choose|q: int| 0 <= q < before.len() && (#[trigger] before[q]).0@ == k && before[q].2 == n;
                    assert(r@[q] == before[q]);
                }
            }
            assert forall|i: int, k: int|
                0 <= i < k < r@.len() implies (#[trigger] r@[i]).2 < (#[trigger] r@[k]).2 || (r@[i].2 == r@[k].2
                    && r@[i].0@ != r@[k].0@) by {
                if k >= before.len() {
                    let qk = k - before.len();
                    assert(r@[k] == (found@[qk].0, found@[qk].1, ns));
                    if i >= before.len() {
                        let qi = i - before.len();
                        assert(r@[i] == (found@[qi].0, found@[qi].1, ns));
                        assert(found@[qi].0@ != found@[qk].0@);
                    } else {
                        assert(r@[i] == before[i]);
                        let e = before[i];
                        assert(e.2 < ns);
                    }
                } else {
                    assert(r@[i] == before[i]);
                    assert(r@[k] == before[k]);
                    assert(before[i].2 < before[k].2 || (before[i].2 == before[k].2 && before[i].0@ != before[k].0@));
                }
            }
        }
        ns = ns + 1;
    }
    r
}

/// Returns the one crate of all the namespaces of `chain` whose name starts
/// with `prefix`, if exactly one does: its name, its number and the
/// position of its namespace.
pub fn get_crate_starting_with(chain: &Vec<CrateNamespace>, prefix: &str) -> (r: Option<(String, usize, usize)>)
    ensures
        match single_chain_match(crate_views(chain@), prefix@) {
            Some((v, ns, k)) => r matches Some((name, c, n)) && name@ == k && c == v && n == ns,
            None => r is None,
        },
{
    let found = get_crates_starting_with(chain, prefix);
    let ghost views = crate_views(chain@);
    let ghost pre = prefix@;
    if found.len() == 1 {
        let ghost p = (found@[0].2 as int, found@[0].0@);
        proof {
            assert(views[p.0] == chain@[p.0]@.crates);
            assert forall|x: (int, Seq<char>)| chain_matches(views, pre).contains(x) <==> x == p by {
                if chain_matches(views, pre).contains(x) {
                    assert(views[x.0] == chain@[x.0]@.crates);
                    assert(chain@[x.0]@.crates.dom().contains(x.1));
                }
            }
            assert(chain_matches(views, pre) =~= set![p]);
            let q = choose|q: (int, Seq<char>)| chain_matches(views, pre) == set![q];
            assert(set![q].contains(q));
            assert(set![p].contains(q));
        }
        let (n, c, ns) = &found[0];
        Some((n.clone(), *c, *ns))
    } else {
        proof {
            assert forall|p: (int, Seq<char>)| chain_matches(views, pre) != set![p] by {
                if chain_matches(views, pre) == set![p] {
                    assert(set![p].contains(p));
                    assert(views[p.0] == chain@[p.0]@.crates);
                    assert(chain@[p.0]@.crates.dom().contains(p.1));
                    let i = choose|i: int| 0 <= i < found@.len() && (#[trigger] found@[i]).0@ == p.1 && found@[i].2 == p.0;
                    if found@.len() > 1 {
                        let j = if i == 0 {
                            1int
                        } else {
                            0int
                        };
                        let e = found@[j];
                        assert(views[e.2 as int] == chain@[e.2 as int]@.crates);
                        assert(chain_matches(views, pre).contains((e.2 as int, e.0@)));
                        if i < j {
                            assert(found@[i].2 < found@[j].2 || (found@[i].2 == found@[j].2 && found@[i].0@ != found@[j].0@));
                        } else {
                            assert(found@[j].2 < found@[i].2 || (found@[j].2 == found@[i].2 && found@[j].0@ != found@[i].0@));
                        }
                    }
                }
            }
        }
        None
    }
}


/// The sequences of `parts`, one after another.
pub open spec fn joined(parts: Seq<Seq<Seq<char>>>) -> Seq<Seq<char>>
    decreases parts.len(),
{
    if parts.len() == 0 {
        Seq::empty()
    } else {
        joined(parts.drop_last()) + parts.last()
    }
}

/// How many namespaces of a chain of `len` namespaces the crate names come
/// from: all of them when `recursive`, else the first.
pub open spec fn names_depth(len: int, recursive: bool) -> int {
    if recursive || len == 0 {
        len
    } else {
        1
    }
}

/// The names of the strings of `s`.
pub open spec fn string_views(s: Seq<String>) -> Seq<Seq<char>> {
    s.map_values(|x: String| x@)
}

/// Returns the names of the crates of the first namespace of `chain` and,
/// when `recursive`, of the namespaces after it: namespace by namespace, in
/// the chain's order, each name of a namespace once (in an order that the
/// trie decides).
pub fn crate_names(chain: &Vec<CrateNamespace>, recursive: bool) -> (r: Vec<String>)
    ensures
        exists|parts: Seq<Seq<Seq<char>>>|
            {
                &&& parts.len() == names_depth(chain@.len() as int, recursive)
                &&& joined(parts) == string_views(r@)
                &&& forall|n: int|
                    0 <= n < parts.len() ==> (#[trigger] parts[n]).no_duplicates() && parts[n].to_set()
                        == chain@[n]@.crates.dom()
            },
{
    let limit: usize = if recursive || chain.len() == 0 {
        chain.len()
    } else {
        1
    };
    let mut r: Vec<String> = Vec::new();
    let ghost mut parts: Seq<Seq<Seq<char>>> = Seq::empty();
    let mut ns: usize = 0;
    while ns < limit
        invariant
            ns <= limit,
            limit <= chain@.len(),
            limit == names_depth(chain@.len() as int, recursive),
            parts.len() == ns,
            joined(parts) == string_views(r@),
            forall|n: int|
                0 <= n < ns ==> (#[trigger] parts[n]).no_duplicates() && parts[n].to_set() == chain@[n]@.crates.dom(),
        decreases limit - ns,
    {
        let empty = String::new();
        let found = chain[ns].crates_here_starting_with(empty.as_str());
        let ghost before = r@;
        let mut j: usize = 0;
        while j < found.len()
            invariant
                j <= found@.len(),
                r@.len() == before.len() + j,
                forall|i: int| 0 <= i < before.len() ==> r@[i] == before[i],
                forall|i: int| 0 <= i < j ==> (#[trigger] r@[before.len() + i])@ == found@[i].0@,
            decreases found@.len() - j,
        {
            r.push(found[j].0.clone());
            j = j + 1;
        }
        proof {
            let part = found@.map_values(|e: (String, usize)| e.0@);
            let dom = chain@[ns as int]@.crates.dom();
            assert forall|k: Seq<char>| dom.contains(k) implies part.contains(k) by {
                assert(Seq::<char>::empty().is_prefix_of(k)) by {
                    assert(Seq::<char>::empty() =~= k.subrange(0, 0));
                }
                let i = choose|i: int| 0 <= i < found@.len() && (#[trigger] found@[i].0@) == k;
                assert(part[i] == k);
            }
            assert forall|k: Seq<char>| part.contains(k) implies dom.contains(k) by {
                let i = choose|i: int| 0 <= i < part.len() && part[i] == k;
                assert(found@[i].0@ == k);
            }
            assert(part.to_set() =~= dom);
            assert forall|a: int, b: int| 0 <= a < part.len() && 0 <= b < part.len() && a != b implies part[a]
                != part[b] by {
                if a < b {
                    assert(found@[a].0@ != found@[b].0@);
                } else {
                    assert(found@[b].0@ != found@[a].0@);
                }
            }
            assert(parts.push(part).drop_last() =~= parts);
            assert(string_views(r@) =~= string_views(before) + part) by {
                assert forall|i: int| 0 <= i < r@.len() implies string_views(r@)[i] == (string_views(before)
                    + part)[i] by {
                    if i >= before.len() {
                        assert(r@[before.len() + (i - before.len())]@ == found@[i - before.len()].0@);
                    }
                }
            }
            parts = parts.push(part);
        }
        ns = ns + 1;
    }
    r
}


/// A crate added to the first namespace of a chain is found there, in that
/// namespace, whatever the namespaces after it hold.
pub proof fn law_added_crate_is_found(
    crates: Map<Seq<char>, usize>,
    rest: Seq<Map<Seq<char>, usize>>,
    crate_name: Seq<char>,
    crate_id: usize,
)
    ensures
        first_holding(seq![crates.insert(crate_name, crate_id)] + rest, crate_name, 0) == Some((crate_id, 0int)),
{
    let chain = seq![crates.insert(crate_name, crate_id)] + rest;
    assert(chain[0] == crates.insert(crate_name, crate_id));
}

/// A crate removed from a namespace is no longer found in it, and the
/// namespace's other crates stay as they were.
pub proof fn law_removed_crate_is_gone(crates: Map<Seq<char>, usize>, crate_name: Seq<char>, other: Seq<char>)
    ensures
        lookup(crates.remove(crate_name), crate_name) is None,
        other != crate_name ==> lookup(crates.remove(crate_name), other) == lookup(crates, other),
{
}

} // verus!
