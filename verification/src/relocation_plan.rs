//! The relocations of a newly loaded crate: for each relocation section of
//! its object file that is applied, and each of its records, the section
//! that the record writes to, the relocation to compute, and where its
//! source is found, which is also the dependency to record (on a section of
//! the same crate, or on a section of another crate that the target then
//! depends on). Writing each relocation's value is left to the caller.

use vstd::prelude::*;
use xmas_elf::sections::{SectionData, ShType};
use xmas_elf::ElfFile;
use zerocopy::IntoBytes;
use crate::elf::{
    elf_readable, elf_section_name, elf_string, lemma_entries_names_readable, read_symbol_entries, section_name,
    string_at, symbol_entries_read, ElfSection, SymbolEntry, SHN_LORESERVE,
};
use crate::relocation::{
    applies_rela_section, is_applied_rela_section, relocation_source, relocation_source_spec, RelocationEntry,
    RelocationSource, RelocationSourceView,
};
use crate::section_loader::{sections_of, vec_contains};

verus! {

/// The records of the relocation section `index` of the ELF file `input`
/// (offset, symbol index, type, addend): `None` where the file or the
/// header does not parse or the section's type is not `RELA`; `Some(None)`
/// where its data is not a table of 64-bit records.
pub uninterp spec fn elf_rela_data(input: Seq<u8>, index: u16) -> Option<Option<Seq<(u64, u32, u32, u64)>>>;

/// The `info` field of section header `index`, which for a relocation
/// section is the index of the section that its records write to.
pub uninterp spec fn elf_section_info(input: Seq<u8>, index: u16) -> Option<u32>;

/// Parses section header `index` of an aligned copy of `input`; where its
/// type (`get_type`) is `ShType::Rela`, reads its data with `get_data` and,
/// where that is `SectionData::Rela64`, each record's `get_offset`,
/// `get_symbol_table_index`, `get_type` and `get_addend`. The contract names
/// the result; `requires` leaves out the files on which `xmas_elf` panics.
#[verifier::external_body]
fn rela_data(input: &[u8], index: u16) -> (r: Option<Option<Vec<(u64, u32, u32, u64)>>>)
    requires
        index < SHN_LORESERVE,
        elf_readable(input@),
    ensures
        match r {
            None => elf_rela_data(input@, index) is None,
            Some(None) => elf_rela_data(input@, index) == Some(None::<Seq<(u64, u32, u32, u64)>>),
            Some(Some(v)) => elf_rela_data(input@, index) == Some(Some(v@)),
        },
{
    let n = input.len();
    let mut words = vec![0u64; n];
    words.as_mut_bytes()[..n].copy_from_slice(input);
    let f = ElfFile::new(&words.as_bytes()[..n]).ok()?;
    let s = f.section_header(index).ok()?;
    match s.get_type() {
        Ok(ShType::Rela) => Some(match s.get_data(&f) {
            Ok(SectionData::Rela64(rs)) => Some(rs.iter().map(|e| (e.get_offset(), e.get_symbol_table_index(), e.get_type(), e.get_addend())).collect()),
            _ => None,
        }),
        _ => None,
    }
}

/// Parses section header `index` of an aligned copy of `input` and reads
/// its `info` field; `None` where the file or the header does not parse.
/// `requires` leaves out the files on which `xmas_elf` panics.
#[verifier::external_body]
fn section_info(input: &[u8], index: u16) -> (r: Option<u32>)
    requires
        index < SHN_LORESERVE,
        elf_readable(input@),
    ensures
        r == elf_section_info(input@, index),
{
    let n = input.len();
    let mut words = vec![0u64; n];
    words.as_mut_bytes()[..n].copy_from_slice(input);
    Some(ElfFile::new(&words.as_bytes()[..n]).ok()?.section_header(index).ok()?.info())
}

/// The error for a relocation section whose data is not 64-bit records.
pub const NOT_RELA64: &'static str = "Found Rela section that wasn't able to be parsed as Rela64";
/// The error for a relocation section whose target section was not loaded.
pub const TARGET_NOT_LOADED: &'static str = "target section was not loaded for Rela section";
/// The error for a record whose symbol lies beyond the symbol table.
pub const SYMBOL_OUT_OF_RANGE: &'static str = "relocation entry refers to a symbol beyond the symbol table";

/// One relocation to perform: the section it writes to, the relocation,
/// where its source is found (and so which dependency to record), and the
/// value of its symbol, the offset of the source within its section.
pub struct RelocationPlan {
    pub target_shndx: usize,
    pub relocation: RelocationEntry,
    pub source: RelocationSource,
    pub source_value: u64,
}

/// `RelocationPlan` as a specification value.
pub struct RelocationPlanView {
    pub target_shndx: usize,
    pub relocation: RelocationEntry,
    pub source: RelocationSourceView,
    pub source_value: u64,
}

impl View for RelocationPlan {
    type V = RelocationPlanView;

    open spec fn view(&self) -> RelocationPlanView {
        RelocationPlanView {
            target_shndx: self.target_shndx,
            relocation: self.relocation,
            source: self.source@,
            source_value: self.source_value,
        }
    }
}

/// The views of a sequence of relocations.
pub open spec fn plan_views(s: Seq<RelocationPlan>) -> Seq<RelocationPlanView> {
    s.map_values(|p: RelocationPlan| p@)
}

/// The string `r` where it could be read.
pub open spec fn read_ok(r: Result<Seq<char>, Seq<char>>) -> Option<Seq<char>> {
    match r {
        Ok(s) => Some(s),
        Err(_) => None,
    }
}

/// The relocation that record `e` (offset, symbol index, type, addend) of
/// a relocation section writing to section `target` asks for: its source is
/// the section of its symbol, local where the crate loaded a section of that
/// index (`loaded`), else found by the symbol's name.
pub open spec fn relocation_step(
    input: Seq<u8>,
    symbols: Seq<SymbolEntry>,
    loaded: Seq<usize>,
    target: usize,
    e: (u64, u32, u32, u64),
) -> Result<RelocationPlanView, Seq<char>> {
    if e.1 >= symbols.len() {
        Err(SYMBOL_OUT_OF_RANGE@)
    } else {
        let sym = symbols[e.1 as int];
        let shndx = sym.shndx as usize;
        let local = loaded.contains(shndx);
        let name = if local {
            None
        } else {
            read_ok(elf_string(input, sym.name))
        };
        match relocation_source_spec(shndx, local, name) {
            Err(m) => Err(m),
            Ok(src) => Ok(
                RelocationPlanView {
                    target_shndx: target,
                    relocation: RelocationEntry { typ: e.2, addend: e.3 as usize, offset: e.0 as usize },
                    source: src,
                    source_value: sym.value,
                },
            ),
        }
    }
}

/// The relocations of the first `n` records `es` of a section writing to `target`.
pub open spec fn records_fold(
    input: Seq<u8>,
    symbols: Seq<SymbolEntry>,
    loaded: Seq<usize>,
    target: usize,
    es: Seq<(u64, u32, u32, u64)>,
    n: int,
) -> Result<Seq<RelocationPlanView>, Seq<char>>
    decreases n,
{
    if n <= 0 {
        Ok(Seq::empty())
    } else {
        match records_fold(input, symbols, loaded, target, es, n - 1) {
            Err(m) => Err(m),
            Ok(p) => match relocation_step(input, symbols, loaded, target, es[n - 1]) {
                Err(m) => Err(m),
                Ok(v) => Ok(p.push(v)),
            },
        }
    }
}

/// The relocations of section `i`: none for a section that is not a
/// relocation section or is not applied; an error where its data is not
/// 64-bit records or its target was not loaded; else those of its records.
pub open spec fn section_relocations(
    input: Seq<u8>,
    sections: Seq<ElfSection>,
    symbols: Seq<SymbolEntry>,
    loaded: Seq<usize>,
    i: int,
) -> Result<Seq<RelocationPlanView>, Seq<char>> {
    match elf_rela_data(input, i as u16) {
        None => Ok(Seq::empty()),
        Some(data) => if !applies_rela_section(sections[i].size, elf_section_name(input, i as u16)) {
            Ok(Seq::empty())
        } else {
            match data {
                None => Err(NOT_RELA64@),
                Some(es) => match elf_section_info(input, i as u16) {
                    None => Ok(Seq::empty()),
                    Some(t) => if !loaded.contains(t as usize) {
                        Err(TARGET_NOT_LOADED@)
                    } else {
                        records_fold(input, symbols, loaded, t as usize, es, es.len() as int)
                    },
                },
            }
        },
    }
}

/// The relocations of the first `n` sections, in order; the first error
/// ends them.
pub open spec fn relocations_fold(
    input: Seq<u8>,
    sections: Seq<ElfSection>,
    symbols: Seq<SymbolEntry>,
    loaded: Seq<usize>,
    n: int,
) -> Result<Seq<RelocationPlanView>, Seq<char>>
    decreases n,
{
    if n <= 0 {
        Ok(Seq::empty())
    } else {
        match relocations_fold(input, sections, symbols, loaded, n - 1) {
            Err(m) => Err(m),
            Ok(p) => match section_relocations(input, sections, symbols, loaded, n - 1) {
                Err(m) => Err(m),
                Ok(q) => Ok(p + q),
            },
        }
    }
}

/// The relocation of record `e` of a section writing to `target`.
fn plan_record(
    input: &[u8],
    symbols: &Vec<SymbolEntry>,
    loaded: &Vec<usize>,
    target: usize,
    e: (u64, u32, u32, u64),
) -> (r: Result<RelocationPlan, &'static str>)
    requires
        elf_readable(input@),
        crate::elf::names_readable(input@, symbols@),
    ensures
        match relocation_step(input@, symbols@, loaded@, target, e) {
            Ok(v) => r matches Ok(p) && p@ == v,
            Err(m) => r matches Err(x) && x@ == m,
        },
{
    let (offset, idx, typ, addend) = e;
    if idx as usize >= symbols.len() {
        return Err(SYMBOL_OUT_OF_RANGE);
    }
    let sym = symbols[idx as usize];
    let shndx = sym.shndx as usize;
    let local = vec_contains(loaded, shndx);
    let name = if local {
        None
    } else {
        proof {
            if crate::elf::header_parses(input@) {
                assert(symbols@[idx as int] == sym);
            }
        }
        match string_at(input, sym.name) {
            Ok(s) => Some(s),
            Err(_) => None,
        }
    };
    let n: Option<&str> = match &name {
        Some(s) => Some(s.as_str()),
        None => None,
    };
    match relocation_source(shndx, local, n) {
        Err(m) => Err(m),
        Ok(source) => Ok(
            RelocationPlan {
                target_shndx: target,
                relocation: RelocationEntry { typ, addend: addend as usize, offset: offset as usize },
                source,
                source_value: sym.value,
            },
        ),
    }
}


/// Once the relocations of some records fail, those of more records fail
/// with the same error.
proof fn lemma_records_fold_err(
    input: Seq<u8>,
    symbols: Seq<SymbolEntry>,
    loaded: Seq<usize>,
    target: usize,
    es: Seq<(u64, u32, u32, u64)>,
    k: int,
    n: int,
)
    requires
        0 <= k <= n,
        records_fold(input, symbols, loaded, target, es, k) is Err,
    ensures
        records_fold(input, symbols, loaded, target, es, n) == records_fold(input, symbols, loaded, target, es, k),
    decreases n - k,
{
    if n > k {
        lemma_records_fold_err(input, symbols, loaded, target, es, k, n - 1);
    }
}

/// Once the relocations of some sections fail, those of more sections fail
/// with the same error.
proof fn lemma_relocations_fold_err(
    input: Seq<u8>,
    sections: Seq<ElfSection>,
    symbols: Seq<SymbolEntry>,
    loaded: Seq<usize>,
    k: int,
    n: int,
)
    requires
        0 <= k <= n,
        relocations_fold(input, sections, symbols, loaded, k) is Err,
    ensures
        relocations_fold(input, sections, symbols, loaded, n) == relocations_fold(input, sections, symbols, loaded, k),
    decreases n - k,
{
    if n > k {
        lemma_relocations_fold_err(input, sections, symbols, loaded, k, n - 1);
    }
}

/// The relocations of the records `es` of a section writing to `target`.
fn plan_records(
    input: &[u8],
    symbols: &Vec<SymbolEntry>,
    loaded: &Vec<usize>,
    target: usize,
    es: &Vec<(u64, u32, u32, u64)>,
) -> (r: Result<Vec<RelocationPlan>, &'static str>)
    requires
        elf_readable(input@),
        crate::elf::names_readable(input@, symbols@),
    ensures
        match records_fold(input@, symbols@, loaded@, target, es@, es@.len() as int) {
            Ok(v) => r matches Ok(p) && plan_views(p@) == v,
            Err(m) => r matches Err(x) && x@ == m,
        },
{
    let mut out: Vec<RelocationPlan> = Vec::new();
    assert(plan_views(out@) =~= Seq::<RelocationPlanView>::empty());
    let mut j: usize = 0;
    while j < es.len()
        invariant
            elf_readable(input@),
            crate::elf::names_readable(input@, symbols@),
            j <= es@.len(),
            records_fold(input@, symbols@, loaded@, target, es@, j as int) == Ok::<
                Seq<RelocationPlanView>,
                Seq<char>,
            >(plan_views(out@)),
        decreases es@.len() - j,
    {
        let ghost before = out@;
        match plan_record(input, symbols, loaded, target, es[j]) {
            Err(m) => {
                proof {
                    lemma_records_fold_err(input@, symbols@, loaded@, target, es@, j as int + 1, es@.len() as int);
                }
                return Err(m);
            },
            Ok(p) => {
                out.push(p);
                proof {
                    assert(plan_views(out@) =~= plan_views(before).push(p@));
                }
            },
        }
        j = j + 1;
    }
    Ok(out)
}

/// Plans the relocations of a newly loaded crate from its object file
/// `input`: `sections` are its section headers, `symtab` the index of its
/// symbol table, and `loaded` the indices of the sections that loading
/// placed. For each relocation section that is applied, in order, it checks
/// that its data is a table of 64-bit records and that its target section
/// was loaded, and for each record finds where its source is: a section of
/// the crate, or the section of the symbol's name in another crate, which
/// the target then depends on. The first error ends the planning.
pub fn plan_relocations(input: &[u8], sections: &Vec<ElfSection>, symtab: u16, loaded: &Vec<usize>) -> (r: Result<
    Vec<RelocationPlan>,
    &'static str,
>)
    requires
        elf_readable(input@),
        sections_of(input@, sections@),
        sections@.len() <= SHN_LORESERVE,
        symtab < SHN_LORESERVE,
    ensures
        match relocations_fold(input@, sections@, symbol_entries_read(input@, symtab), loaded@, sections@.len() as int) {
            Ok(v) => r matches Ok(p) && plan_views(p@) == v,
            Err(m) => r matches Err(x) && x@ == m,
        },
{
    let symbols = read_symbol_entries(input, symtab);
    proof {
        lemma_entries_names_readable(input@, symtab, symbols@);
    }
    let ghost syms = symbols@;
    let mut out: Vec<RelocationPlan> = Vec::new();
    assert(plan_views(out@) =~= Seq::<RelocationPlanView>::empty());
    let mut i: usize = 0;
    while i < sections.len()
        invariant
            elf_readable(input@),
            crate::elf::names_readable(input@, symbols@),
            syms == symbols@,
            syms == symbol_entries_read(input@, symtab),
            sections@.len() <= SHN_LORESERVE,
            i <= sections@.len(),
            relocations_fold(input@, sections@, syms, loaded@, i as int) == Ok::<
                Seq<RelocationPlanView>,
                Seq<char>,
            >(plan_views(out@)),
        decreases sections@.len() - i,
    {
        let idx = i as u16;
        let ghost before = out@;
        let part: Result<Vec<RelocationPlan>, &'static str> = match rela_data(input, idx) {
            None => Ok(Vec::new()),
            Some(data) => {
                let name = section_name(input, idx);
                let n: Option<&str> = match &name {
                    Some(s) => Some(s.as_str()),
                    None => None,
                };
                if !is_applied_rela_section(sections[i].size, n) {
                    Ok(Vec::new())
                } else {
                    match data {
                        None => Err(NOT_RELA64),
                        Some(es) => match section_info(input, idx) {
                            None => Ok(Vec::new()),
                            Some(t) => if !vec_contains(loaded, t as usize) {
                                Err(TARGET_NOT_LOADED)
                            } else {
                                plan_records(input, &symbols, loaded, t as usize, &es)
                            },
                        },
                    }
                }
            },
        };
        proof {
            assert((i as int) as u16 == idx);
        }
        match part {
            Err(m) => {
                proof {
                    assert(section_relocations(input@, sections@, syms, loaded@, i as int) == Err::<
                        Seq<RelocationPlanView>,
                        Seq<char>,
                    >(m@));
                    lemma_relocations_fold_err(input@, sections@, syms, loaded@, i as int + 1, sections@.len() as int);
                }
                return Err(m);
            },
            Ok(ps) => {
                let ghost q = plan_views(ps@);
                proof {
                    if ps@.len() == 0 {
                        assert(q =~= Seq::<RelocationPlanView>::empty());
                    }
                    assert(section_relocations(input@, sections@, syms, loaded@, i as int) == Ok::<
                        Seq<RelocationPlanView>,
                        Seq<char>,
                    >(q));
                }
                let mut ps = ps;
                out.append(&mut ps);
                proof {
                    assert(plan_views(out@) =~= plan_views(before) + q);
                }
            },
        }
        i = i + 1;
    }
    Ok(out)
}


/// The relocations of some records all write to their section's target.
proof fn lemma_records_target(
    input: Seq<u8>,
    symbols: Seq<SymbolEntry>,
    loaded: Seq<usize>,
    target: usize,
    es: Seq<(u64, u32, u32, u64)>,
    n: int,
)
    ensures
        records_fold(input, symbols, loaded, target, es, n) matches Ok(v) ==> forall|i: int|
            0 <= i < v.len() ==> (#[trigger] v[i]).target_shndx == target,
    decreases n,
{
    if n > 0 {
        lemma_records_target(input, symbols, loaded, target, es, n - 1);
    }
}

/// Every relocation that planning yields writes to a section that loading
/// placed: a relocation section whose target was not placed is an error.
pub proof fn law_relocations_target_loaded(
    input: Seq<u8>,
    sections: Seq<ElfSection>,
    symbols: Seq<SymbolEntry>,
    loaded: Seq<usize>,
    n: int,
)
    ensures
        relocations_fold(input, sections, symbols, loaded, n) matches Ok(v) ==> forall|i: int|
            0 <= i < v.len() ==> loaded.contains((#[trigger] v[i]).target_shndx),
    decreases n,
{
    if n > 0 {
        law_relocations_target_loaded(input, sections, symbols, loaded, n - 1);
        let i = n - 1;
        if let Some(Some(es)) = elf_rela_data(input, i as u16) {
            if let Some(t) = elf_section_info(input, i as u16) {
                lemma_records_target(input, symbols, loaded, t as usize, es, es.len() as int);
            }
        }
        if let Ok(p) = relocations_fold(input, sections, symbols, loaded, n - 1) {
            if let Ok(q) = section_relocations(input, sections, symbols, loaded, n - 1) {
                assert forall|k: int| 0 <= k < (p + q).len() implies loaded.contains(((p + q)[k]).target_shndx) by {
                    if k >= p.len() {
                        assert((p + q)[k] == q[k - p.len()]);
                    } else {
                        assert((p + q)[k] == p[k]);
                    }
                }
            }
        }
    }
}

/// Each relocation planned for the records `es` of a relocation section
/// comes from the record at the same position: it writes to the section's
/// target, at the record's offset, with the record's type and addend, and
/// its source value is the value (`st_value`) of the symbol-table entry
/// that the record names, the offset of the source within its section.
pub proof fn law_relocation_takes_its_symbol_value(
    input: Seq<u8>,
    symbols: Seq<SymbolEntry>,
    loaded: Seq<usize>,
    target: usize,
    es: Seq<(u64, u32, u32, u64)>,
    n: int,
)
    requires
        0 <= n <= es.len(),
    ensures
        records_fold(input, symbols, loaded, target, es, n) matches Ok(v) ==> {
            &&& v.len() == n
            &&& forall|k: int|
                0 <= k < n ==> {
                    &&& es[k].1 < symbols.len()
                    &&& (#[trigger] v[k]).source_value == symbols[es[k].1 as int].value
                    &&& v[k].target_shndx == target
                    &&& v[k].relocation.offset == es[k].0 as usize
                    &&& v[k].relocation.typ == es[k].2
                    &&& v[k].relocation.addend == es[k].3 as usize
                }
        },
    decreases n,
{
    if n > 0 {
        law_relocation_takes_its_symbol_value(input, symbols, loaded, target, es, n - 1);
    }
}

} // verus!
