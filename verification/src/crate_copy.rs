//! Copying a loaded crate into new memory: where each section lands in the
//! copied regions, which of its relocations must be written again, and
//! where the sections it depends on within the crate now lie.

use vstd::prelude::*;
use crate::section::SectionType;
use crate::nano_core::PagesRange;
use crate::address_lookup::CrateRegions;
use crate::relocation::{RelocationEntry, R_X86_64_32, R_X86_64_64};

verus! {

impl PagesRange {
    /// The address at `offset` in the region, where the region covers it.
    pub open spec fn address_at_offset_spec(self, offset: usize) -> Option<usize> {
        if offset < self.size && self.start + offset <= usize::MAX {
            Some((self.start + offset) as usize)
        } else {
            None
        }
    }

    /// Returns the address at `offset` in the region, where the region covers it.
    pub fn address_at_offset(&self, offset: usize) -> (r: Option<usize>)
        ensures
            r == self.address_at_offset_spec(offset),
    {
        if offset < self.size && offset <= usize::MAX - self.start {
            Some(self.start + offset)
        } else {
            None
        }
    }
}

/// The section types of a crate whose sections are copied.
pub open spec fn copyable(typ: SectionType) -> bool {
    typ == SectionType::Text || typ == SectionType::Rodata || typ == SectionType::Data || typ
        == SectionType::Bss
}

/// Where a section of type `typ` at `offset` in its region lands in the
/// copied crate: at the same offset in the copied region of its kind.
pub open spec fn copied_address(typ: SectionType, offset: usize, pages: CrateRegions) -> Result<usize, Seq<char>> {
    let (region, missing) = if typ == SectionType::Text {
        (pages.text, "BUG: missing text pages in newly-copied crate"@)
    } else if typ == SectionType::Rodata {
        (pages.rodata, "BUG: missing rodata pages in newly-copied crate"@)
    } else {
        (pages.data, "BUG: missing data pages in newly-copied crate"@)
    };
    match region {
        None => Err(missing),
        Some(p) => match p.address_at_offset_spec(offset) {
            None => Err("BUG: couldn't get virt_addr for new section"@),
            Some(a) => Ok(a),
        },
    }
}

/// Returns where a section of type `typ` at `offset` lands in the copied crate.
pub fn copied_section_address(typ: SectionType, offset: usize, pages: &CrateRegions) -> (r: Result<
    usize,
    &'static str,
>)
    requires
        copyable(typ),
    ensures
        match copied_address(typ, offset, *pages) {
            Ok(a) => r == Ok::<usize, &'static str>(a),
            Err(m) => r matches Err(e) && e@ == m,
        },
{
    let region = match typ {
        SectionType::Text => match pages.text {
            Some(p) => p,
            None => {
                return Err("BUG: missing text pages in newly-copied crate");
            },
        },
        SectionType::Rodata => match pages.rodata {
            Some(p) => p,
            None => {
                return Err("BUG: missing rodata pages in newly-copied crate");
            },
        },
        _ => match pages.data {
            Some(p) => p,
            None => {
                return Err("BUG: missing data pages in newly-copied crate");
            },
        },
    };
    match region.address_at_offset(offset) {
        Some(a) => Ok(a),
        None => Err("BUG: couldn't get virt_addr for new section"),
    }
}

/// A section of the crate to copy: its index, type and offset in its region.
#[derive(Debug, Clone, Copy, PartialEq, Eq, Structural)]
pub struct SectionToCopy {
    pub shndx: usize,
    pub typ: SectionType,
    pub mapped_pages_offset: usize,
}

/// The new addresses of the first `n` sections of `secs`, or the first error.
pub open spec fn copied_addresses(secs: Seq<SectionToCopy>, pages: CrateRegions, n: int) -> Result<
    Seq<(usize, usize)>,
    Seq<char>,
>
    decreases n,
{
    if n <= 0 {
        Ok(Seq::empty())
    } else {
        match copied_addresses(secs, pages, n - 1) {
            Err(m) => Err(m),
            Ok(acc) => match copied_address(secs[n - 1].typ, secs[n - 1].mapped_pages_offset, pages) {
                Err(m) => Err(m),
                Ok(a) => Ok(acc.push((secs[n - 1].shndx, a))),
            },
        }
    }
}

proof fn lemma_copied_err(secs: Seq<SectionToCopy>, pages: CrateRegions, k: int, n: int)
    requires
        0 <= k <= n,
        copied_addresses(secs, pages, k) is Err,
    ensures
        copied_addresses(secs, pages, n) == copied_addresses(secs, pages, k),
    decreases n - k,
{
    if k < n {
        lemma_copied_err(secs, pages, k, n - 1);
    }
}

/// Returns the index and new address of each section of the crate, in
/// order, or the first error.
pub fn copy_section_addresses(secs: &Vec<SectionToCopy>, pages: &CrateRegions) -> (r: Result<
    Vec<(usize, usize)>,
    &'static str,
>)
    requires
        forall|i: int| 0 <= i < secs@.len() ==> copyable(#[trigger] secs@[i].typ),
    ensures
        match copied_addresses(secs@, *pages, secs@.len() as int) {
            Ok(v) => r matches Ok(x) && x@ == v,
            Err(m) => r matches Err(e) && e@ == m,
        },
{
    let mut out: Vec<(usize, usize)> = Vec::new();
    let mut i: usize = 0;
    while i < secs.len()
        invariant
            i <= secs@.len(),
            forall|k: int| 0 <= k < secs@.len() ==> copyable(#[trigger] secs@[k].typ),
            copied_addresses(secs@, *pages, i as int) == Ok::<Seq<(usize, usize)>, Seq<char>>(out@),
        decreases secs@.len() - i,
    {
        let s = secs[i];
        match copied_section_address(s.typ, s.mapped_pages_offset, pages) {
            Ok(a) => {
                out.push((s.shndx, a));
            },
            Err(e) => {
                proof {
                    lemma_copied_err(secs@, *pages, i + 1, secs@.len() as int);
                }
                return Err(e);
            },
        }
        i = i + 1;
    }
    Ok(out)
}

/// The indices, in order, of the relocations of `deps` that depend on the
/// target section's address and so must be written again in the copy.
pub open spec fn rewritten(deps: Seq<RelocationEntry>) -> Seq<usize>
    decreases deps.len(),
{
    if deps.len() == 0 {
        Seq::empty()
    } else {
        let prev = rewritten(deps.drop_last());
        let last = deps.last();
        if last.typ == R_X86_64_32 || last.typ == R_X86_64_64 {
            prev
        } else {
            prev.push((deps.len() - 1) as usize)
        }
    }
}

/// Returns the indices of the relocations that must be written again: those
/// that are not absolute.
pub fn relocations_to_rewrite(deps: &Vec<RelocationEntry>) -> (r: Vec<usize>)
    ensures
        r@ == rewritten(deps@),
{
    let mut out: Vec<usize> = Vec::new();
    let mut i: usize = 0;
    while i < deps.len()
        invariant
            i <= deps@.len(),
            out@ == rewritten(deps@.subrange(0, i as int)),
        decreases deps@.len() - i,
    {
        assert(deps@.subrange(0, i + 1).drop_last() =~= deps@.subrange(0, i as int));
        if !deps[i].is_absolute() {
            out.push(i);
        }
        i = i + 1;
    }
    assert(deps@.subrange(0, deps@.len() as int) =~= deps@);
    out
}

/// The new address of the section of index `shndx` among `copied`, if any.
pub open spec fn copied_lookup(copied: Seq<(usize, usize)>, shndx: usize) -> Option<usize> {
    if exists|i: int| 0 <= i < copied.len() && copied[i].0 == shndx {
        Some(copied[choose|i: int| 0 <= i < copied.len() && copied[i].0 == shndx].1)
    } else {
        None
    }
}

/// Returns the new address of the source section of an internal dependency,
/// found by its index among the copied sections (whose indices are distinct).
pub fn internal_source_address(copied: &Vec<(usize, usize)>, source_sec_shndx: usize) -> (r: Result<
    usize,
    &'static str,
>)
    requires
        forall|i: int, j: int|
            0 <= i < j < copied@.len() ==> (#[trigger] copied@[i]).0 != (#[trigger] copied@[j]).0,
    ensures
        match copied_lookup(copied@, source_sec_shndx) {
            Some(a) => r == Ok::<usize, &'static str>(a),
            None => r == Err::<usize, &'static str>(
                "Couldn't get new section specified by an internal dependency's source_sec_shndx",
            ),
        },
{
    let mut i: usize = 0;
    while i < copied.len()
        invariant
            i <= copied@.len(),
            forall|k: int| 0 <= k < i ==> (#[trigger] copied@[k]).0 != source_sec_shndx,
            forall|a: int, b: int|
                0 <= a < b < copied@.len() ==> (#[trigger] copied@[a]).0 != (#[trigger] copied@[b]).0,
        decreases copied@.len() - i,
    {
        if copied[i].0 == source_sec_shndx {
            proof {
                let w = i as int;
                assert(0 <= w < copied@.len() && copied@[w].0 == source_sec_shndx);
                let c = choose|k: int| 0 <= k < copied@.len() && copied@[k].0 == source_sec_shndx;
                assert(0 <= c < copied@.len() && copied@[c].0 == source_sec_shndx);
                if c > w {
                    assert(copied@[w].0 != copied@[c].0);
                }
                assert(c == w);
            }
            return Ok(copied[i].1);
        }
        i = i + 1;
    }
    Err("Couldn't get new section specified by an internal dependency's source_sec_shndx")
}

/// Each copied section lands in the copied region of its own kind, at its
/// offset there: a `.text` section in the text pages, a `.rodata` section in
/// the rodata pages and a data or `.bss` section in the data pages, at the
/// region's start plus the offset; it is placed exactly where that region is
/// present and covers the offset. Two sections of the same kind keep their
/// distance.
pub proof fn law_copied_section_in_region_of_its_kind(
    typ: SectionType,
    offset: usize,
    other_offset: usize,
    pages: CrateRegions,
)
    requires
        copyable(typ),
    ensures
        ({
            let region = if typ == SectionType::Text {
                pages.text
            } else if typ == SectionType::Rodata {
                pages.rodata
            } else {
                pages.data
            };
            &&& copied_address(typ, offset, pages) is Ok <==> (region matches Some(p) && offset < p.size && p.start
                + offset <= usize::MAX)
            &&& copied_address(typ, offset, pages) matches Ok(a) ==> (region matches Some(p) && a == p.start
                + offset)
            &&& copied_address(typ, offset, pages) is Ok && copied_address(typ, other_offset, pages) is Ok
                ==> copied_address(typ, other_offset, pages)->Ok_0 - copied_address(typ, offset, pages)->Ok_0
                == other_offset - offset
        }),
        typ == SectionType::Rodata && copied_address(typ, offset, pages) is Ok ==> (pages.rodata matches Some(p)
            && copied_address(typ, offset, pages) == Ok::<usize, Seq<char>>((p.start + offset) as usize)),
        typ == SectionType::Text && copied_address(typ, offset, pages) is Ok ==> (pages.text matches Some(p)
            && copied_address(typ, offset, pages) == Ok::<usize, Seq<char>>((p.start + offset) as usize)),
        (typ == SectionType::Data || typ == SectionType::Bss) && copied_address(typ, offset, pages) is Ok ==> (
        pages.data matches Some(p) && copied_address(typ, offset, pages) == Ok::<usize, Seq<char>>(
            (p.start + offset) as usize,
        )),
{
}

} // verus!
