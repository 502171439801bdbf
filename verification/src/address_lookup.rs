//! Finding the loaded crate, and the section of it, that holds a virtual
//! address, as a backtrace does for an instruction pointer. Only executable
//! regions and sections are searched unless all section types are asked for.

use vstd::prelude::*;
use crate::nano_core::PagesRange;
use crate::section::SectionType;
use crate::section_loader::str_eq;

verus! {

/// The regions of a loaded crate: executable, read-only and read-write.
#[derive(Debug, Clone, Copy, PartialEq, Eq, Structural)]
pub struct CrateRegions {
    pub text: Option<PagesRange>,
    pub rodata: Option<PagesRange>,
    pub data: Option<PagesRange>,
}

/// Whether the region `r` covers `addr`.
pub open spec fn covers(r: Option<PagesRange>, addr: usize) -> bool {
    match r {
        Some(p) => p.start <= addr && addr - p.start < p.size,
        None => false,
    }
}

/// Whether a crate with these regions holds `addr`: in its executable
/// region, or with `search_all` in any of its regions.
pub open spec fn crate_holds(c: CrateRegions, addr: usize, search_all: bool) -> bool {
    covers(c.text, addr) || (search_all && (covers(c.rodata, addr) || covers(c.data, addr)))
}

fn region_covers(r: &Option<PagesRange>, addr: usize) -> (b: bool)
    ensures
        b == covers(*r, addr),
{
    match r {
        Some(p) => p.start <= addr && addr - p.start < p.size,
        None => false,
    }
}

impl CrateRegions {
    /// Returns whether the crate holds `addr` in one of the regions searched.
    pub fn contains_address(&self, addr: usize, search_all: bool) -> (b: bool)
        ensures
            b == crate_holds(*self, addr, search_all),
    {
        if region_covers(&self.text, addr) {
            return true;
        }
        if search_all {
            if region_covers(&self.rodata, addr) {
                return true;
            }
            if region_covers(&self.data, addr) {
                return true;
            }
        }
        false
    }
}

/// Returns the position of the first crate, in the order given, that holds
/// `addr`, or `None` where none does.
pub fn get_crate_containing_address(crates: &Vec<CrateRegions>, addr: usize, search_all: bool) -> (r:
    Option<usize>)
    ensures
        match r {
            Some(i) => i < crates@.len() && crate_holds(crates@[i as int], addr, search_all)
                && forall|j: int| 0 <= j < i ==> !crate_holds(#[trigger] crates@[j], addr, search_all),
            None => forall|j: int|
                0 <= j < crates@.len() ==> !crate_holds(#[trigger] crates@[j], addr, search_all),
        },
{
    let mut i: usize = 0;
    while i < crates.len()
        invariant
            i <= crates@.len(),
            forall|j: int| 0 <= j < i ==> !crate_holds(#[trigger] crates@[j], addr, search_all),
        decreases crates@.len() - i,
    {
        if crates[i].contains_address(addr, search_all) {
            return Some(i);
        }
        i = i + 1;
    }
    None
}

/// A loaded section as the search sees it: its type, name, address and size.
pub struct SectionSpan {
    pub typ: SectionType,
    pub name: String,
    pub virt_addr: usize,
    pub size: usize,
}

/// A section as a specification value.
pub struct SpanView {
    pub typ: SectionType,
    pub name: Seq<char>,
    pub virt_addr: usize,
    pub size: usize,
}

impl View for SectionSpan {
    type V = SpanView;

    open spec fn view(&self) -> SpanView {
        SpanView { typ: self.typ, name: self.name@, virt_addr: self.virt_addr, size: self.size }
    }
}

/// Whether the section is searched and holds `addr`.
pub open spec fn span_holds(s: SpanView, addr: usize, search_all: bool) -> bool {
    (s.typ == SectionType::Text || search_all) && s.virt_addr <= addr && addr - s.virt_addr < s.size
}

/// Whether the section is a merged one, named like its type (`.text`, ...),
/// rather than the section of one symbol.
pub open spec fn is_merged_span(s: SpanView) -> bool {
    s.name == s.typ.spec_name()
}

/// The result of the search over the first `n` sections: the last section
/// found that holds `addr` (with the offset of `addr` in it), where the
/// search stops at the first one that is not a merged section.
pub open spec fn containing_section(secs: Seq<SpanView>, addr: usize, search_all: bool, n: int) -> Option<
    (int, usize),
>
    decreases n,
{
    if n <= 0 {
        None
    } else {
        let prev = containing_section(secs, addr, search_all, n - 1);
        let s = secs[n - 1];
        if prev matches Some(p) && !is_merged_span(secs[p.0]) {
            prev
        } else if span_holds(s, addr, search_all) {
            Some((n - 1, (addr - s.virt_addr) as usize))
        } else {
            prev
        }
    }
}

/// Returns the section that holds `addr`, with the offset of `addr` in it:
/// the first symbol section that holds it, or else the last merged section
/// that does, or `None` where no searched section holds it.
pub fn get_section_containing_address(secs: &Vec<SectionSpan>, addr: usize, search_all: bool) -> (r:
    Option<(usize, usize)>)
    ensures
        match containing_section(secs@.map_values(|s: SectionSpan| s@), addr, search_all, secs@.len() as int) {
            Some(p) => r == Some((p.0 as usize, p.1)),
            None => r is None,
        },
{
    let ghost views = secs@.map_values(|s: SectionSpan| s@);
    let mut found: Option<(usize, usize)> = None;
    let mut i: usize = 0;
    while i < secs.len()
        invariant
            i <= secs@.len(),
            views == secs@.map_values(|s: SectionSpan| s@),
            match containing_section(views, addr, search_all, i as int) {
                Some(p) => found == Some((p.0 as usize, p.1)) && 0 <= p.0 < i && is_merged_span(views[p.0]),
                None => found is None,
            },
        decreases secs@.len() - i,
    {
        let s = &secs[i];
        let eligible = s.typ == SectionType::Text || search_all;
        if eligible && s.virt_addr <= addr && addr - s.virt_addr < s.size {
            found = Some((i, addr - s.virt_addr));
            proof {
                assert(views[i as int] == s@);
            }
            if !str_eq(s.name.as_str(), s.typ.name()) {
                proof {
                    assert(views[i as int] == s@);
                    lemma_containing_section_stops(views, addr, search_all, i as int + 1, secs@.len() as int);
                }
                return found;
            }
        }
        i = i + 1;
    }
    found
}

/// Once a symbol section that holds `addr` has been found, further
/// sections change nothing.
proof fn lemma_containing_section_stops(secs: Seq<SpanView>, addr: usize, search_all: bool, k: int, n: int)
    requires
        0 < k <= n,
        containing_section(secs, addr, search_all, k) matches Some(p) && !is_merged_span(secs[p.0]),
    ensures
        containing_section(secs, addr, search_all, n) == containing_section(secs, addr, search_all, k),
    decreases n - k,
{
    if k < n {
        lemma_containing_section_stops(secs, addr, search_all, k, n - 1);
    }
}

} // verus!
