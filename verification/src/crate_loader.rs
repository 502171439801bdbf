//! Loading the sections of a crate's object file into a namespace: the
//! checks before loading, the choice between the loader for merged sections
//! and the one for separate sections, and the addition of the new sections'
//! global symbols to the namespace's symbol map (before any relocation, so
//! that they can resolve the relocations of the crates loaded with them).

use vstd::prelude::*;
use crate::elf::elf_readable;
use crate::elf_check::{check_elf_readable, UNREADABLE_ELF_FILE};
use crate::merged_loader::{merged_planned, plan_merged_crate_sections, MergedPlan};
use crate::namespace::CrateNamespace;
use crate::section_loader::{
    plan_separate_crate_sections, prepare_crate_load, prepared, sections_are_merged, separate_planned, CrateLayout,
    PlannedSection,
};
use crate::symbol_map::{added, section_views, SymbolSection, SymbolSectionView};
use crate::tls::TlsInitializer;
use crate::nano_core::{nano_core_file_outcome, parse_nano_core_file, NanoCorePages, ParsedCrateItems, SectionView};

verus! {

/// The sections that loading placed, by the loader that placed them.
pub enum LoadedSections {
    /// The sections of an object file whose sections were merged
    Merged(MergedPlan),
    /// The sections of an object file whose sections were not merged, with
    /// the indices of its global sections
    Separate(Vec<PlannedSection>, Vec<usize>),
}

/// The symbol entries of the sections that loading placed: each section's
/// name, whether it is global, and the key (section index) it is known by.
pub open spec fn placed_symbols(p: LoadedSections) -> Seq<SymbolSectionView> {
    match p {
        LoadedSections::Merged(m) => Seq::new(
            m.sections@.len(),
            |i: int| SymbolSectionView { name: m.sections@[i].name@, global: m.sections@[i].global, section: m.sections@[i].key },
        ),
        LoadedSections::Separate(s, _) => Seq::new(
            s@.len(),
            |i: int| SymbolSectionView { name: s@[i].info.name@, global: s@[i].info.global, section: s@[i].shndx },
        ),
    }
}

/// The symbol entries of the placed sections `placed`, in order.
pub fn placed_symbol_sections(placed: &LoadedSections) -> (r: Vec<SymbolSection>)
    ensures
        section_views(r@) == placed_symbols(*placed),
{
    let mut syms: Vec<SymbolSection> = Vec::new();
    match placed {
        LoadedSections::Merged(m) => {
            let mut i: usize = 0;
            while i < m.sections.len()
                invariant
                    i <= m.sections@.len(),
                    syms@.len() == i,
                    forall|k: int|
                        0 <= k < i ==> (#[trigger] syms@[k])@ == placed_symbols(*placed)[k],
                    *placed == LoadedSections::Merged(*m),
                decreases m.sections@.len() - i,
            {
                let s = &m.sections[i];
                syms.push(SymbolSection { name: s.name.clone(), global: s.global, section: s.key });
                i = i + 1;
            }
        },
        LoadedSections::Separate(s, _) => {
            let mut i: usize = 0;
            while i < s.len()
                invariant
                    i <= s@.len(),
                    syms@.len() == i,
                    forall|k: int|
                        0 <= k < i ==> (#[trigger] syms@[k])@ == placed_symbols(*placed)[k],
                    *placed matches LoadedSections::Separate(s2, _) && s2 == *s,
                decreases s@.len() - i,
            {
                let p = &s[i];
                syms.push(SymbolSection { name: p.info.name.clone(), global: p.info.global, section: p.shndx });
                i = i + 1;
            }
        },
    }
    proof {
        assert(section_views(syms@) =~= placed_symbols(*placed));
    }
    syms
}

/// Whether the TLS area `tls` has room for the records that placing the
/// sections of `layout` may add.
pub open spec fn tls_room(tls: TlsInitializer, layout: CrateLayout) -> bool {
    tls.records().len() + layout.inputs@.len() + 1 < usize::MAX
}

/// The result of the loader for merged sections, as placed sections.
pub open spec fn merged_loaded(m: Option<Result<MergedPlan, &'static str>>) -> Option<Result<LoadedSections, &'static str>> {
    match m {
        None => None,
        Some(Err(e)) => Some(Err(e)),
        Some(Ok(p)) => Some(Ok(LoadedSections::Merged(p))),
    }
}

/// The result of the loader for separate sections, as placed sections.
pub open spec fn separate_loaded(s: Option<Result<(Vec<PlannedSection>, Vec<usize>), &'static str>>) -> Option<
    Result<LoadedSections, &'static str>,
> {
    match s {
        None => None,
        Some(Err(e)) => Some(Err(e)),
        Some(Ok((v, g))) => Some(Ok(LoadedSections::Separate(v, g))),
    }
}

/// What loading the sections of the object file `input` gives, with the
/// TLS area `tls0` before and `tls1` after: what `prepare_crate_load` gives
/// where it does not give a layout; `None` where the TLS area has no room
/// for the sections; else what the loader for merged or for separate
/// sections gives for that layout, as the file says.
pub open spec fn crate_load_outcome(
    input: Seq<u8>,
    already_loaded: bool,
    tls0: TlsInitializer,
    tls1: TlsInitializer,
    r: Option<Result<LoadedSections, &'static str>>,
) -> bool {
    exists|l: Option<Result<CrateLayout, &'static str>>|
        #[trigger] prepared(input, already_loaded, l) && match l {
            None => r is None && tls1 == tls0,
            Some(Err(e)) => r == Some(Err::<LoadedSections, &'static str>(e)) && tls1 == tls0,
            Some(Ok(lay)) => if !tls_room(tls0, lay) {
                r is None && tls1 == tls0
            } else if lay.merged {
                exists|m: Option<Result<MergedPlan, &'static str>>|
                    #[trigger] merged_planned(input, lay, tls0, tls1, m) && r == merged_loaded(m)
            } else {
                exists|sp: Option<Result<(Vec<PlannedSection>, Vec<usize>), &'static str>>|
                    #[trigger] separate_planned(input, lay, tls0, tls1, sp) && r == separate_loaded(sp)
            },
        }
}

/// Checks the object file `input` of a crate (refused where `already_loaded`)
/// and places its sections with the loader for merged or for separate
/// sections, as the file says.
pub fn place_crate_sections(input: &[u8], already_loaded: bool, tls: &mut TlsInitializer) -> (r: Option<
    Result<LoadedSections, &'static str>,
>)
    requires
        elf_readable(input@),
        old(tls).wf(),
    ensures
        final(tls).wf(),
        crate_load_outcome(input@, already_loaded, *old(tls), *final(tls), r),
{
    let res = prepare_crate_load(input, already_loaded);
    let ghost g = res;
    assert(prepared(input@, already_loaded, g));
    let layout = match res {
        None => {
            return None;
        },
        Some(Err(e)) => {
            return Some(Err(e));
        },
        Some(Ok(l)) => l,
    };
    if tls.num_sections() >= usize::MAX - 1 || layout.inputs.len() >= usize::MAX - 1 - tls.num_sections() {
        return None;
    }
    if layout.merged {
        let m = plan_merged_crate_sections(input, &layout, tls);
        assert(merged_planned(input@, layout, *old(tls), *tls, m));
        match m {
            None => None,
            Some(Err(e)) => Some(Err(e)),
            Some(Ok(p)) => Some(Ok(LoadedSections::Merged(p))),
        }
    } else {
        let sp = plan_separate_crate_sections(input, &layout, tls);
        assert(separate_planned(input@, layout, *old(tls), *tls, sp));
        match sp {
            None => None,
            Some(Err(e)) => Some(Err(e)),
            Some(Ok((v, gl))) => Some(Ok(LoadedSections::Separate(v, gl))),
        }
    }
}

/// What loading the sections of the crate `name` from `input` into the
/// namespace `ns0` gives: the outcome of `place_crate_sections` (refused
/// where `ns0` holds the crate); where it places them, the namespace `ns1`
/// has the global symbols of the placed sections added and is otherwise
/// unchanged; where it does not, `ns1` is `ns0`.
pub open spec fn crate_sections_loaded(
    ns0: CrateNamespace,
    ns1: CrateNamespace,
    name: Seq<char>,
    input: Seq<u8>,
    tls0: TlsInitializer,
    tls1: TlsInitializer,
    r: Option<Result<LoadedSections, &'static str>>,
) -> bool {
    &&& crate_load_outcome(input, ns0@.crates.dom().contains(name), tls0, tls1, r)
    &&& r matches Some(Ok(p)) ==> {
        &&& (p is Merged <==> sections_are_merged(input))
        &&& ns1@.symbols == added(
            ns0@.symbols,
            placed_symbols(p),
            Seq::new(placed_symbols(p).len(), |i: int| true),
            placed_symbols(p).len() as int,
        ).0
        &&& ns1@.crates == ns0@.crates
        &&& ns1@.name == ns0@.name
        &&& ns1@.fuzzy == ns0@.fuzzy
    }
    &&& !(r matches Some(Ok(_))) ==> ns1@ == ns0@
}

/// Loads the sections of the crate `crate_name` from its object file
/// `input` into the namespace `ns`: refuses a crate that the namespace
/// holds already, checks the file and places its sections (see
/// `place_crate_sections`), and then adds the global symbols of the placed
/// sections to the namespace's symbol map. Nothing of the namespace changes
/// where loading fails.
pub fn load_crate_sections(ns: &mut CrateNamespace, crate_name: &str, input: &[u8], tls: &mut TlsInitializer) -> (r:
    Option<Result<LoadedSections, &'static str>>)
    requires
        elf_readable(input@),
        old(tls).wf(),
    ensures
        final(tls).wf(),
        crate_sections_loaded(*old(ns), *final(ns), crate_name@, input@, *old(tls), *final(tls), r),
{
    let already_loaded = ns.crate_here(crate_name).is_some();
    let placed = match place_crate_sections(input, already_loaded, tls) {
        None => {
            return None;
        },
        Some(Err(e)) => {
            return Some(Err(e));
        },
        Some(Ok(p)) => p,
    };
    let syms = placed_symbol_sections(&placed);
    ns.add_symbols(&syms);
    Some(Ok(placed))
}

/// Loads the sections of the crate `crate_name` from the object file
/// `input` into `ns` as `load_crate_sections` does, after testing that the
/// file can be read safely; a file that cannot is refused with
/// `UNREADABLE_ELF_FILE`, and nothing changes.
pub fn load_checked_crate_sections(
    ns: &mut CrateNamespace,
    crate_name: &str,
    input: &[u8],
    tls: &mut TlsInitializer,
) -> (r: Option<Result<LoadedSections, &'static str>>)
    requires
        old(tls).wf(),
    ensures
        final(tls).wf(),
        elf_readable(input@) ==> crate_sections_loaded(
            *old(ns),
            *final(ns),
            crate_name@,
            input@,
            *old(tls),
            *final(tls),
            r,
        ),
        !elf_readable(input@) ==> (r matches Some(Err(e)) && e@ == UNREADABLE_ELF_FILE@ && final(ns)@ == old(ns)@
            && *final(tls) == *old(tls)),
{
    if !check_elf_readable(input) {
        return Some(Err(UNREADABLE_ELF_FILE));
    }
    load_crate_sections(ns, crate_name, input, tls)
}

/// The name under which the running image is a crate of its namespace.
pub const NANO_CORE_CRATE_NAME: &'static str = "nano_core";

/// The symbol entries of the running image's sections: each section's
/// name, whether it is global, and its position.
pub open spec fn image_symbol_sections(secs: Seq<SectionView>) -> Seq<SymbolSectionView> {
    Seq::new(secs.len(), |i: int| SymbolSectionView { name: secs[i].name, global: secs[i].global, section: i as usize })
}

/// Parses the running image's file (a symbol table or an ELF file, as its
/// extension says), adds the symbols of its global sections to the symbol
/// map of the namespace `ns`, and adds the image to `ns` as the crate
/// `nano_core`, known by `nano_core_id`. Returns the image's sections and
/// symbols, and the number of new symbols; where parsing fails, `ns` stays
/// as it was.
pub fn parse_nano_core(
    ns: &mut CrateNamespace,
    nano_core_id: usize,
    extension: Option<&str>,
    bytes: &[u8],
    pages: &NanoCorePages,
) -> (r: Result<(ParsedCrateItems, usize), &'static str>)
    requires
        bytes@.len() <= isize::MAX,
        (extension matches Some(x) && x@ == "bin"@) ==> elf_readable(bytes@),
    ensures
        match nano_core_file_outcome(
            match extension {
                Some(x) => Some(x@),
                None => None,
            },
            bytes@,
            *pages,
        ) {
            Ok(v) => r matches Ok((items, n)) && items@ == v && {
                let secs = image_symbol_sections(v.sections);
                let (m, c) = added(old(ns)@.symbols, secs, Seq::new(secs.len(), |i: int| true), secs.len() as int);
                &&& final(ns)@.symbols == m
                &&& n == c
                &&& final(ns)@.crates == old(ns)@.crates.insert(NANO_CORE_CRATE_NAME@, nano_core_id)
                &&& final(ns)@.name == old(ns)@.name
                &&& final(ns)@.fuzzy == old(ns)@.fuzzy
            },
            Err(m) => r matches Err(e) && e@ == m && final(ns)@ == old(ns)@,
        },
{
    let items = match parse_nano_core_file(extension, bytes, pages) {
        Ok(items) => items,
        Err(e) => {
            return Err(e);
        },
    };
    let mut secs: Vec<SymbolSection> = Vec::new();
    let mut i: usize = 0;
    while i < items.sections.len()
        invariant
            i <= items.sections@.len(),
            secs@.len() == i,
            forall|k: int|
                0 <= k < i ==> (#[trigger] secs@[k])@ == (SymbolSectionView {
                    name: items.sections@[k].name@,
                    global: items.sections@[k].global,
                    section: k as usize,
                }),
        decreases items.sections@.len() - i,
    {
        let s = &items.sections[i];
        secs.push(SymbolSection { name: s.name.clone(), global: s.global, section: i });
        i = i + 1;
    }
    proof {
        assert(section_views(secs@) =~= image_symbol_sections(items@.sections));
    }
    let n = ns.add_loaded_crate(NANO_CORE_CRATE_NAME, nano_core_id, &secs);
    Ok((items, n))
}

} // verus!
