//! How a crate's object file whose sections were merged by the partial
//! relinking step is loaded: each merged top-level section (`.text`,
//! `.rodata`, `.data`, `.bss`, `.tdata`, `.tbss`, `.eh_frame`,
//! `.gcc_except_table`) is placed at its offset from the first section of its
//! page group, and each function, object and TLS symbol then becomes a section
//! of its own inside the merged one that holds it.

use crate::elf::{elf_readable, names_readable, header_parses, string_read_safe, lemma_entries_names_readable, elf_string, elf_symbol_count, find_symbol_table, first_symtab, read_symbol_entries, string_at, SHN_LORESERVE, SectionKind, SymbolEntry, SHF_EXECINSTR, SHF_TLS, SHF_WRITE};
use crate::range_map::points_after_insert;
use crate::section::SectionType;
use crate::section_loader::{
    group_of_type,
    alloc_indices, globals_of, inputs_of, lemma_alloc_indices_len, sections_of, symbols_of, CrateLayout, data_source, first_tls_slot, has_prefix, input_name, symbol_of, DataSource, PagesKind, SectionInput,
};
use crate::tls::{dynamic_slot_fits, TlsInitializer, TlsSectionRecord};
use vstd::prelude::*;

verus! {

/// What the loader remembers while it goes through the merged sections.
#[derive(Debug, Clone, Copy)]
pub struct MergedState {
    /// File offset of the first read-only section
    pub ro_start: Option<u64>,
    /// File offset of the first read-write section
    pub rw_start: Option<u64>,
    /// Index of the `.rodata` section
    pub rodata_shndx: Option<usize>,
    /// Index of the first `.data` section
    pub data_shndx: Option<usize>,
    /// Index and file offset of the first `.bss` section
    pub bss: Option<(usize, u64)>,
    /// Index, offset in the read-only pages and TLS offset of the `.tdata` section
    pub tdata: Option<(usize, u64, usize)>,
    /// Index and TLS offset of the `.tbss` section
    pub tbss: Option<(usize, usize)>,
    /// The key of the next section: one past the last merged section, then one
    /// past the last symbol section
    pub last_shndx: usize,
}

/// The state before the first merged section.
pub open spec fn empty_merged_state() -> MergedState {
    MergedState {
        ro_start: None,
        rw_start: None,
        rodata_shndx: None,
        data_shndx: None,
        bss: None,
        tdata: None,
        tbss: None,
        last_shndx: 0,
    }
}

/// A section of the merged crate: a merged section (keyed by its index) or a
/// symbol's section (keyed after them); its offset in its page group
/// (`u64::MAX` for `.tbss`), its TLS offset for a TLS section, and for a merged
/// section where its contents come from.
pub struct MergedSection {
    pub key: usize,
    pub typ: SectionType,
    pub name: String,
    pub pages: PagesKind,
    pub mapped_pages_offset: u64,
    pub tls_offset: Option<u64>,
    pub size: u64,
    pub global: bool,
    pub source: DataSource,
}

/// A section of the merged crate, as a specification value.
pub struct MergedView {
    pub key: usize,
    pub typ: SectionType,
    pub name: Seq<char>,
    pub pages: PagesKind,
    pub mapped_pages_offset: u64,
    pub tls_offset: Option<u64>,
    pub size: u64,
    pub global: bool,
    pub source: DataSource,
}

/// The specification value of a computed section.
pub open spec fn merged_view(s: MergedSection) -> MergedView {
    MergedView {
        key: s.key,
        typ: s.typ,
        name: s.name@,
        pages: s.pages,
        mapped_pages_offset: s.mapped_pages_offset,
        tls_offset: s.tls_offset,
        size: s.size,
        global: s.global,
        source: s.source,
    }
}

/// What happens to one merged section before it is placed in the TLS area.
pub enum MergedStep {
    Skip,
    Fail(Seq<char>),
    /// Loading cannot go on here (an offset below the first of its group).
    Panic,
    /// The section is loaded with this type, group, offset and contents; the
    /// state is updated as given; `tls` tells whether it also goes into the TLS area.
    Load { typ: SectionType, pages: PagesKind, offset: u64, source: DataSource, st: MergedState, tls: bool },
}

/// The offset of a section at file offset `offset` from the first section of
/// its group, which is `start` or, if none was seen yet, this one.
pub open spec fn offset_from(start: Option<u64>, offset: u64) -> (Option<u64>, Option<u64>) {
    let s = match start {
        Some(s) => s,
        None => offset,
    };
    (Some(s), if offset >= s { Some((offset - s) as u64) } else { None })
}

/// A read-only merged section of type `typ` (`.rodata`, `.eh_frame`, `.gcc_except_table`).
pub open spec fn merged_read_only(inp: SectionInput, st: MergedState, typ: SectionType, have_ro: bool) -> MergedStep {
    let h = inp.header;
    let (ro_start, off) = offset_from(st.ro_start, h.offset);
    let st2 = MergedState {
        ro_start,
        rodata_shndx: if typ == SectionType::Rodata { Some(inp.shndx) } else { st.rodata_shndx },
        ..st
    };
    match off {
        None => MergedStep::Panic,
        Some(o) => if !have_ro {
            MergedStep::Fail("BUG: ELF file contained a read-only section, but no rodata_pages were allocated"@)
        } else {
            match data_source(h.kind, h.offset, h.size) {
                None => MergedStep::Fail("couldn't get section data for merged section"@),
                Some(src) => MergedStep::Load { typ, pages: PagesKind::ReadOnly, offset: o, source: src, st: st2, tls: false },
            }
        },
    }
}

/// What happens to one allocated section of a merged object file.
pub open spec fn merged_step(inp: SectionInput, st: MergedState, have_text: bool, have_ro: bool, have_rw: bool) -> MergedStep {
    let h = inp.header;
    let flags = h.flags;
    let is_write = flags & SHF_WRITE == SHF_WRITE;
    let is_exec = flags & SHF_EXECINSTR == SHF_EXECINSTR;
    let is_tls = flags & SHF_TLS == SHF_TLS;
    if is_exec {
        if !have_text {
            MergedStep::Fail("BUG: ELF file contained a .text section, but no text_pages were allocated"@)
        } else {
            match data_source(h.kind, h.offset, h.size) {
                None => MergedStep::Fail("couldn't get section data for merged section"@),
                Some(src) => MergedStep::Load { typ: SectionType::Text, pages: PagesKind::Text, offset: 0, source: src, st, tls: false },
            }
        }
    } else if is_write && !is_tls {
        if h.kind != SectionKind::ProgBits && h.kind != SectionKind::NoBits {
            MergedStep::Fail("BUG: writable section was neither PROGBITS (.data) nor NOBITS (.bss)"@)
        } else {
            let is_data = h.kind == SectionKind::ProgBits;
            let (rw_start, off) = offset_from(st.rw_start, h.offset);
            let st2 = MergedState {
                rw_start,
                data_shndx: if is_data && st.data_shndx is None { Some(inp.shndx) } else { st.data_shndx },
                bss: if !is_data && st.bss is None { Some((inp.shndx, h.offset)) } else { st.bss },
                ..st
            };
            match off {
                None => MergedStep::Panic,
                Some(o) => if !have_rw {
                    MergedStep::Fail("BUG: ELF file contained a .data/.bss section, but no data_pages were allocated"@)
                } else {
                    match data_source(h.kind, h.offset, h.size) {
                        None => MergedStep::Fail("couldn't get section data for merged section"@),
                        Some(src) => MergedStep::Load {
                            typ: if is_data { SectionType::Data } else { SectionType::Bss },
                            pages: PagesKind::ReadWrite,
                            offset: o,
                            source: src,
                            st: st2,
                            tls: false,
                        },
                    }
                },
            }
        }
    } else if is_tls {
        if h.kind == SectionKind::ProgBits {
            let (ro_start, off) = offset_from(st.ro_start, h.offset);
            match off {
                None => MergedStep::Panic,
                Some(o) => if !have_ro {
                    MergedStep::Fail("BUG: ELF file contained a .tdata/.tbss section, but no rodata_pages were allocated"@)
                } else {
                    match data_source(h.kind, h.offset, h.size) {
                        None => MergedStep::Fail("couldn't get section data for merged section"@),
                        Some(src) => MergedStep::Load {
                            typ: SectionType::TlsData,
                            pages: PagesKind::ReadOnly,
                            offset: o,
                            source: src,
                            st: MergedState { ro_start, ..st },
                            tls: true,
                        },
                    }
                },
            }
        } else if h.kind == SectionKind::NoBits {
            if !have_ro {
                MergedStep::Fail("BUG: ELF file contained a .tdata/.tbss section, but no rodata_pages were allocated"@)
            } else {
                MergedStep::Load {
                    typ: SectionType::TlsBss,
                    pages: PagesKind::ReadOnly,
                    offset: u64::MAX,
                    source: DataSource::NoData,
                    st,
                    tls: true,
                }
            }
        } else {
            MergedStep::Fail("BUG: TLS section was neither PROGBITS (.tdata) nor NOBITS (.tbss)"@)
        }
    } else {
        match input_name(inp) {
            None => MergedStep::Fail("BUG: couldn't get section name"@),
            Some(n) => if n == ".rodata"@ {
                merged_read_only(inp, st, SectionType::Rodata, have_ro)
            } else if n == ".eh_frame"@ {
                merged_read_only(inp, st, SectionType::EhFrame, have_ro)
            } else if n == ".gcc_except_table"@ {
                merged_read_only(inp, st, SectionType::GccExceptTable, have_ro)
            } else if has_prefix(n, ".debug"@) {
                MergedStep::Skip
            } else {
                MergedStep::Fail("load_crate_with_merged_sections(): section with unhandled type, name, or flags!"@)
            },
        }
    }
}


/// What happens to one merged section, as the loader computes it.
pub enum MergedStepResult {
    Skip,
    Fail(&'static str),
    Panic,
    Load { typ: SectionType, pages: PagesKind, offset: u64, source: DataSource, st: MergedState, tls: bool },
}

/// `r` is the computed form of `s`.
pub open spec fn merged_step_is(r: MergedStepResult, s: MergedStep) -> bool {
    match r {
        MergedStepResult::Skip => s is Skip,
        MergedStepResult::Fail(m) => s matches MergedStep::Fail(n) && m@ == n,
        MergedStepResult::Panic => s is Panic,
        MergedStepResult::Load { typ, pages, offset, source, st, tls } => s matches MergedStep::Load {
            typ: t2,
            pages: p2,
            offset: o2,
            source: s2,
            st: st2,
            tls: l2,
        } && typ == t2 && pages == p2 && offset == o2 && source == s2 && st == st2 && tls == l2,
    }
}

/// Computes `offset_from`.
fn offset_from_start(start: Option<u64>, offset: u64) -> (r: (Option<u64>, Option<u64>))
    ensures
        r == offset_from(start, offset),
{
    let s = match start {
        Some(s) => s,
        None => offset,
    };
    (Some(s), if offset >= s { Some(offset - s) } else { None })
}

/// Computes `merged_read_only`.
fn read_only_step(inp: &SectionInput, st: MergedState, typ: SectionType, have_ro: bool) -> (r: MergedStepResult)
    ensures
        merged_step_is(r, merged_read_only(*inp, st, typ, have_ro)),
{
    let h = inp.header;
    let (ro_start, off) = offset_from_start(st.ro_start, h.offset);
    let st2 = MergedState {
        ro_start,
        rodata_shndx: if typ == SectionType::Rodata {
            Some(inp.shndx)
        } else {
            st.rodata_shndx
        },
        ..st
    };
    match off {
        None => MergedStepResult::Panic,
        Some(o) => if !have_ro {
            MergedStepResult::Fail("BUG: ELF file contained a read-only section, but no rodata_pages were allocated")
        } else {
            match crate::section_loader::data_source_of(h.kind, h.offset, h.size) {
                None => MergedStepResult::Fail("couldn't get section data for merged section"),
                Some(src) => MergedStepResult::Load {
                    typ,
                    pages: PagesKind::ReadOnly,
                    offset: o,
                    source: src,
                    st: st2,
                    tls: false,
                },
            }
        },
    }
}

/// Decides what happens to one allocated section of a merged object file.
#[verifier::spinoff_prover]
pub fn merged_section_step(inp: &SectionInput, st: MergedState, have_text: bool, have_ro: bool, have_rw: bool) -> (r:
    MergedStepResult)
    ensures
        merged_step_is(r, merged_step(*inp, st, have_text, have_ro, have_rw)),
{
    let h = inp.header;
    let flags = h.flags;
    let is_write = flags & SHF_WRITE == SHF_WRITE;
    let is_exec = flags & SHF_EXECINSTR == SHF_EXECINSTR;
    let is_tls = flags & SHF_TLS == SHF_TLS;
    if is_exec {
        if !have_text {
            MergedStepResult::Fail("BUG: ELF file contained a .text section, but no text_pages were allocated")
        } else {
            match crate::section_loader::data_source_of(h.kind, h.offset, h.size) {
                None => MergedStepResult::Fail("couldn't get section data for merged section"),
                Some(src) => MergedStepResult::Load {
                    typ: SectionType::Text,
                    pages: PagesKind::Text,
                    offset: 0,
                    source: src,
                    st,
                    tls: false,
                },
            }
        }
    } else if is_write && !is_tls {
        if h.kind != SectionKind::ProgBits && h.kind != SectionKind::NoBits {
            MergedStepResult::Fail("BUG: writable section was neither PROGBITS (.data) nor NOBITS (.bss)")
        } else {
            let is_data = h.kind == SectionKind::ProgBits;
            let (rw_start, off) = offset_from_start(st.rw_start, h.offset);
            let st2 = MergedState {
                rw_start,
                data_shndx: if is_data && st.data_shndx.is_none() {
                    Some(inp.shndx)
                } else {
                    st.data_shndx
                },
                bss: if !is_data && st.bss.is_none() {
                    Some((inp.shndx, h.offset))
                } else {
                    st.bss
                },
                ..st
            };
            match off {
                None => MergedStepResult::Panic,
                Some(o) => if !have_rw {
                    MergedStepResult::Fail("BUG: ELF file contained a .data/.bss section, but no data_pages were allocated")
                } else {
                    match crate::section_loader::data_source_of(h.kind, h.offset, h.size) {
                        None => MergedStepResult::Fail("couldn't get section data for merged section"),
                        Some(src) => MergedStepResult::Load {
                            typ: if is_data {
                                SectionType::Data
                            } else {
                                SectionType::Bss
                            },
                            pages: PagesKind::ReadWrite,
                            offset: o,
                            source: src,
                            st: st2,
                            tls: false,
                        },
                    }
                },
            }
        }
    } else if is_tls {
        if h.kind == SectionKind::ProgBits {
            let (ro_start, off) = offset_from_start(st.ro_start, h.offset);
            match off {
                None => MergedStepResult::Panic,
                Some(o) => if !have_ro {
                    MergedStepResult::Fail("BUG: ELF file contained a .tdata/.tbss section, but no rodata_pages were allocated")
                } else {
                    match crate::section_loader::data_source_of(h.kind, h.offset, h.size) {
                        None => MergedStepResult::Fail("couldn't get section data for merged section"),
                        Some(src) => MergedStepResult::Load {
                            typ: SectionType::TlsData,
                            pages: PagesKind::ReadOnly,
                            offset: o,
                            source: src,
                            st: MergedState { ro_start, ..st },
                            tls: true,
                        },
                    }
                },
            }
        } else if h.kind == SectionKind::NoBits {
            if !have_ro {
                MergedStepResult::Fail("BUG: ELF file contained a .tdata/.tbss section, but no rodata_pages were allocated")
            } else {
                MergedStepResult::Load {
                    typ: SectionType::TlsBss,
                    pages: PagesKind::ReadOnly,
                    offset: u64::MAX,
                    source: DataSource::NoData,
                    st,
                    tls: true,
                }
            }
        } else {
            MergedStepResult::Fail("BUG: TLS section was neither PROGBITS (.tdata) nor NOBITS (.tbss)")
        }
    } else {
        match &inp.name {
            None => MergedStepResult::Fail("BUG: couldn't get section name"),
            Some(n) => {
                let n = n.as_str();
                if crate::section_loader::str_eq(n, ".rodata") {
                    read_only_step(inp, st, SectionType::Rodata, have_ro)
                } else if crate::section_loader::str_eq(n, ".eh_frame") {
                    read_only_step(inp, st, SectionType::EhFrame, have_ro)
                } else if crate::section_loader::str_eq(n, ".gcc_except_table") {
                    read_only_step(inp, st, SectionType::GccExceptTable, have_ro)
                } else if crate::section_loader::starts_with(n, ".debug") {
                    MergedStepResult::Skip
                } else {
                    MergedStepResult::Fail("load_crate_with_merged_sections(): section with unhandled type, name, or flags!")
                }
            },
        }
    }
}


/// The state carried through the loading of a merged crate: the loader's
/// state, the TLS area's dynamic offsets and section list, the sections so far,
/// and the keys of the TLS sections and of the read-write sections.
pub struct MergedFold {
    pub st: MergedState,
    pub pts: Map<usize, usize>,
    pub recs: Seq<TlsSectionRecord>,
    pub sections: Seq<MergedView>,
    pub tls_sections: Seq<usize>,
    pub data_sections: Seq<usize>,
}

/// Where loading a merged crate ends.
pub enum MergedOutcome {
    Done(MergedFold),
    Failed(Seq<char>),
    /// Loading cannot go on: an offset below the first of its group, a TLS
    /// section of size or alignment zero, or an offset beyond `u64`.
    Panics,
}

/// Places a loaded merged section `inp` whose step is `step`.
pub open spec fn place_merged(f: MergedFold, inp: SectionInput, step: MergedStep) -> MergedOutcome {
    match step {
        MergedStep::Load { typ, pages, offset, source, st, tls } => {
            let h = inp.header;
            let shndx = inp.shndx;
            if tls {
                if h.size == 0 || h.align == 0 || h.size > usize::MAX || h.align > usize::MAX {
                    MergedOutcome::Panics
                } else {
                    match first_tls_slot(f.pts, h.size as int, h.align as int) {
                        None => MergedOutcome::Failed("Failed to add new dynamic TLS section"@),
                        Some(start) => MergedOutcome::Done(
                            MergedFold {
                                st: MergedState {
                                    tdata: if typ == SectionType::TlsData { Some((shndx, offset, start)) } else { st.tdata },
                                    tbss: if typ == SectionType::TlsBss { Some((shndx, start)) } else { st.tbss },
                                    last_shndx: (shndx + 1) as usize,
                                    ..st
                                },
                                pts: points_after_insert(f.pts, start, (start + h.size) as usize, f.recs.len() as usize),
                                recs: f.recs.push(
                                    TlsSectionRecord {
                                        typ,
                                        size: h.size as usize,
                                        offset: start,
                                        is_static: false,
                                        virt_addr: start,
                                    },
                                ),
                                sections: f.sections.push(
                                    MergedView {
                                        key: shndx,
                                        typ,
                                        name: typ.spec_name(),
                                        pages,
                                        mapped_pages_offset: offset,
                                        tls_offset: Some(start as u64),
                                        size: h.size,
                                        global: false,
                                        source,
                                    },
                                ),
                                tls_sections: f.tls_sections.push(shndx),
                                ..f
                            },
                        ),
                    }
                }
            } else {
                MergedOutcome::Done(
                    MergedFold {
                        st: MergedState { last_shndx: (shndx + 1) as usize, ..st },
                        sections: f.sections.push(
                            MergedView {
                                key: shndx,
                                typ,
                                name: typ.spec_name(),
                                pages,
                                mapped_pages_offset: offset,
                                tls_offset: None,
                                size: h.size,
                                global: false,
                                source,
                            },
                        ),
                        data_sections: if pages == PagesKind::ReadWrite {
                            f.data_sections.push(shndx)
                        } else {
                            f.data_sections
                        },
                        ..f
                    },
                )
            }
        },
        MergedStep::Skip => MergedOutcome::Done(f),
        MergedStep::Fail(m) => MergedOutcome::Failed(m),
        MergedStep::Panic => MergedOutcome::Panics,
    }
}

/// Loads the merged sections `inps[i..]` from `f`, stopping at the first failure.
pub open spec fn merged_sections_fold(
    inps: Seq<SectionInput>,
    have_text: bool,
    have_ro: bool,
    have_rw: bool,
    i: int,
    f: MergedFold,
) -> MergedOutcome
    decreases inps.len() - i,
{
    if i < 0 || i >= inps.len() {
        MergedOutcome::Done(f)
    } else {
        match place_merged(f, inps[i], merged_step(inps[i], f.st, have_text, have_ro, have_rw)) {
            MergedOutcome::Done(f2) => merged_sections_fold(inps, have_text, have_ro, have_rw, i + 1, f2),
            other => other,
        }
    }
}

/// The computed sections are the sections of `v`.
pub open spec fn merged_sections_are(s: Seq<MergedSection>, v: Seq<MergedView>) -> bool {
    &&& s.len() == v.len()
    &&& forall|j: int| 0 <= j < s.len() ==> #[trigger] merged_view(s[j]) == v[j]
}

/// The computed loader state is the state of `f`.
pub open spec fn merged_fold_is(
    f: MergedFold,
    st: MergedState,
    tls: TlsInitializer,
    sections: Seq<MergedSection>,
    tls_sections: Seq<usize>,
    data_sections: Seq<usize>,
) -> bool {
    &&& f.st == st
    &&& tls.wf()
    &&& tls.dynamic_points() == f.pts
    &&& tls.records() == f.recs
    &&& merged_sections_are(sections, f.sections)
    &&& tls_sections == f.tls_sections
    &&& data_sections == f.data_sections
}

/// Appending a section to both sides keeps them matched.
proof fn lemma_sections_push(s: Seq<MergedSection>, v: Seq<MergedView>, x: MergedSection)
    requires
        merged_sections_are(s, v),
    ensures
        merged_sections_are(s.push(x), v.push(merged_view(x))),
{
    assert forall|j: int| 0 <= j < s.push(x).len() implies #[trigger] merged_view(s.push(x)[j]) == v.push(merged_view(x))[j] by {
        if j < s.len() {
            assert(merged_view(s[j]) == v[j]);
        }
    }
}

/// Places one loaded merged section outside the TLS area: see `place_merged`.
fn place_merged_plain(
    inp: &SectionInput,
    typ: SectionType,
    pages: PagesKind,
    offset: u64,
    source: DataSource,
    st: MergedState,
    sections: &mut Vec<MergedSection>,
    data_sections: &mut Vec<usize>,
    Ghost(f): Ghost<MergedFold>,
) -> (r: MergedState)
    requires
        inp.shndx < 0xff00,
        merged_sections_are(old(sections)@, f.sections),
        old(data_sections)@ == f.data_sections,
    ensures
        place_merged(f, *inp, MergedStep::Load { typ, pages, offset, source, st, tls: false }) matches MergedOutcome::Done(f2)
            && f2.st == r && f2.pts == f.pts && f2.recs == f.recs && merged_sections_are(final(sections)@, f2.sections)
            && f2.tls_sections == f.tls_sections && final(data_sections)@ == f2.data_sections,
{
    let shndx = inp.shndx;
    let x = MergedSection {
        key: shndx,
        typ,
        name: typ.name().to_owned(),
        pages,
        mapped_pages_offset: offset,
        tls_offset: None,
        size: inp.header.size,
        global: false,
        source,
    };
    proof {
        lemma_sections_push(sections@, f.sections, x);
    }
    sections.push(x);
    if pages == PagesKind::ReadWrite {
        data_sections.push(shndx);
    }
    MergedState { last_shndx: shndx + 1, ..st }
}

/// Places one loaded merged TLS section, also in the TLS area: see `place_merged`.
#[verifier::spinoff_prover]
#[verifier::rlimit(40)]
fn place_merged_tls(
    inp: &SectionInput,
    typ: SectionType,
    pages: PagesKind,
    offset: u64,
    source: DataSource,
    st: MergedState,
    tls: &mut TlsInitializer,
    sections: &mut Vec<MergedSection>,
    tls_sections: &mut Vec<usize>,
    Ghost(f): Ghost<MergedFold>,
) -> (r: Option<Result<MergedState, &'static str>>)
    requires
        typ == SectionType::TlsData || typ == SectionType::TlsBss,
        inp.shndx < 0xff00,
        old(tls).wf(),
        old(tls).dynamic_points() == f.pts,
        old(tls).records() == f.recs,
        old(tls).records().len() + 1 < usize::MAX,
        merged_sections_are(old(sections)@, f.sections),
        old(tls_sections)@ == f.tls_sections,
    ensures
        final(tls).wf(),
        final(tls).records().len() <= old(tls).records().len() + 1,
        match place_merged(f, *inp, MergedStep::Load { typ, pages, offset, source, st, tls: true }) {
            MergedOutcome::Done(f2) => r matches Some(Ok(st2)) && f2.st == st2 && final(tls).dynamic_points() == f2.pts
                && final(tls).records() == f2.recs && merged_sections_are(final(sections)@, f2.sections)
                && final(tls_sections)@ == f2.tls_sections && f2.data_sections == f.data_sections,
            MergedOutcome::Failed(m) => r matches Some(Err(e)) && e@ == m,
            MergedOutcome::Panics => r is None,
        },
{
    let h = inp.header;
    let shndx = inp.shndx;
    if h.size == 0 || h.align == 0 || h.size as u128 > usize::MAX as u128 || h.align as u128 > usize::MAX as u128 {
        return None;
    }
    let ghost pts0 = tls.dynamic_points();
    match tls.add_new_dynamic_tls_section(typ, h.size as usize, h.align as usize) {
        Err(_) => {
            proof {
                assert(first_tls_slot(pts0, h.size as int, h.align as int) is None);
            }
            Some(Err("Failed to add new dynamic TLS section"))
        },
        Ok((start, _id)) => {
            proof {
                let c = choose|x: int|
                    dynamic_slot_fits(pts0, x, h.size as int, h.align as int) && forall|y: int|
                        y < x ==> !#[trigger] dynamic_slot_fits(pts0, y, h.size as int, h.align as int);
                assert(c == start as int) by {
                    if c < start {
                    } else if c > start {
                    }
                }
                assert(first_tls_slot(pts0, h.size as int, h.align as int) == Some(start));
            }
            let x = MergedSection {
                key: shndx,
                typ,
                name: typ.name().to_owned(),
                pages,
                mapped_pages_offset: offset,
                tls_offset: Some(start as u64),
                size: h.size,
                global: false,
                source,
            };
            proof {
                lemma_sections_push(sections@, f.sections, x);
            }
            sections.push(x);
            tls_sections.push(shndx);
            Some(
                Ok(
                    MergedState {
                        tdata: if typ == SectionType::TlsData {
                            Some((shndx, offset, start))
                        } else {
                            st.tdata
                        },
                        tbss: if typ == SectionType::TlsBss {
                            Some((shndx, start))
                        } else {
                            st.tbss
                        },
                        last_shndx: shndx + 1,
                        ..st
                    },
                ),
            )
        },
    }
}


/// A merged section that goes into the TLS area is a `.tdata` or `.tbss` section.
proof fn lemma_tls_step_type(inp: SectionInput, st: MergedState, have_text: bool, have_ro: bool, have_rw: bool)
    ensures
        merged_step(inp, st, have_text, have_ro, have_rw) matches MergedStep::Load { typ, tls, .. } ==> (tls == (typ
            == SectionType::TlsData || typ == SectionType::TlsBss)),
{
}

/// The loading of a merged crate's sections, before its symbols.
pub open spec fn initial_merged_fold(tls: TlsInitializer) -> MergedFold {
    MergedFold {
        st: empty_merged_state(),
        pts: tls.dynamic_points(),
        recs: tls.records(),
        sections: Seq::empty(),
        tls_sections: Seq::empty(),
        data_sections: Seq::empty(),
    }
}

/// The merged sections, the TLS sections and the read-write sections placed so
/// far, with the loader's state.
pub struct MergedProgress {
    pub st: MergedState,
    pub sections: Vec<MergedSection>,
    pub tls_sections: Vec<usize>,
    pub data_sections: Vec<usize>,
}

/// Places the allocated sections `inps` of a merged object file, in order:
/// each at its offset from the first section of its page group (the text
/// section at offset 0), the TLS sections also in the TLS area. Stops at the
/// first section that cannot be loaded and returns its message; returns
/// `None` where loading cannot go on.
pub fn load_merged_sections(
    inps: &Vec<SectionInput>,
    have_text: bool,
    have_ro: bool,
    have_rw: bool,
    tls: &mut TlsInitializer,
) -> (r: Option<Result<MergedProgress, &'static str>>)
    requires
        old(tls).wf(),
        old(tls).records().len() + inps.len() + 1 < usize::MAX,
        forall|j: int| 0 <= j < inps.len() ==> (#[trigger] inps@[j]).shndx < 0xff00,
    ensures
        final(tls).wf(),
        match merged_sections_fold(inps@, have_text, have_ro, have_rw, 0, initial_merged_fold(*old(tls))) {
            MergedOutcome::Done(f) => r matches Some(Ok(p)) && merged_fold_is(
                f,
                p.st,
                *final(tls),
                p.sections@,
                p.tls_sections@,
                p.data_sections@,
            ),
            MergedOutcome::Failed(m) => r matches Some(Err(e)) && e@ == m,
            MergedOutcome::Panics => r is None,
        },
{
    let ghost init = initial_merged_fold(*tls);
    let ghost mut f = init;
    let mut st = MergedState {
        ro_start: None,
        rw_start: None,
        rodata_shndx: None,
        data_shndx: None,
        bss: None,
        tdata: None,
        tbss: None,
        last_shndx: 0,
    };
    let mut sections: Vec<MergedSection> = Vec::new();
    let mut tls_sections: Vec<usize> = Vec::new();
    let mut data_sections: Vec<usize> = Vec::new();
    let mut i: usize = 0;
    while i < inps.len()
        invariant
            i <= inps.len(),
            init == initial_merged_fold(*old(tls)),
            forall|j: int| 0 <= j < inps.len() ==> (#[trigger] inps@[j]).shndx < 0xff00,
            merged_sections_fold(inps@, have_text, have_ro, have_rw, 0, init) == merged_sections_fold(
                inps@,
                have_text,
                have_ro,
                have_rw,
                i as int,
                f,
            ),
            merged_fold_is(f, st, *tls, sections@, tls_sections@, data_sections@),
            tls.records().len() + (inps.len() - i) + 1 < usize::MAX,
        decreases inps.len() - i,
    {
        let inp = &inps[i];
        let ghost gs = merged_step(*inp, st, have_text, have_ro, have_rw);
        proof {
            lemma_tls_step_type(*inp, st, have_text, have_ro, have_rw);
            assert(inp.shndx < 0xff00);
        }
        let step = merged_section_step(inp, st, have_text, have_ro, have_rw);
        match step {
            MergedStepResult::Skip => {
                proof {
                    assert(place_merged(f, *inp, gs) == MergedOutcome::Done(f));
                }
            },
            MergedStepResult::Fail(m) => {
                return Some(Err(m));
            },
            MergedStepResult::Panic => {
                return None;
            },
            MergedStepResult::Load { typ, pages, offset, source, st: st1, tls: is_tls } => {
                if is_tls {
                    match place_merged_tls(inp, typ, pages, offset, source, st1, tls, &mut sections, &mut tls_sections, Ghost(f)) {
                        None => {
                            return None;
                        },
                        Some(Err(m)) => {
                            return Some(Err(m));
                        },
                        Some(Ok(st2)) => {
                            proof {
                                f = place_merged(f, *inp, gs)->Done_0;
                            }
                            st = st2;
                        },
                    }
                } else {
                    let st2 = place_merged_plain(inp, typ, pages, offset, source, st1, &mut sections, &mut data_sections, Ghost(f));
                    proof {
                        f = place_merged(f, *inp, gs)->Done_0;
                    }
                    st = st2;
                }
            },
        }
        i = i + 1;
    }
    Some(Ok(MergedProgress { st, sections, tls_sections, data_sections }))
}


/// What happens to one symbol of a merged crate.
pub enum SymbolStep {
    Skip,
    Fail(Seq<char>),
    /// Loading cannot go on here (an offset beyond `u64`).
    Panic,
    /// The symbol becomes a section of this type and name, in this group at
    /// this offset (and at this TLS offset); `data` tells whether it is a
    /// `.data`/`.bss` object.
    Load {
        typ: SectionType,
        name: Seq<char>,
        pages: PagesKind,
        offset: u64,
        tls_offset: Option<u64>,
        global: bool,
        data: bool,
    },
}

/// Whether the lower four bits of an info byte name a symbol type.
pub open spec fn valid_type_bits(t: u8) -> bool {
    t <= 6 || (10 <= t <= 15)
}

/// Whether the upper four bits of an info byte name a symbol binding.
pub open spec fn valid_binding_bits(b: u8) -> bool {
    b <= 2 || (10 <= b <= 15)
}

/// `a + b`, or nothing beyond `u64`.
pub open spec fn add_u64(a: u64, b: u64) -> Option<u64> {
    if a + b <= u64::MAX {
        Some((a + b) as u64)
    } else {
        None
    }
}

/// What happens to symbol `e` of the merged object file `input`, given the
/// state after its merged sections.
pub open spec fn symbol_step(
    input: Seq<u8>,
    e: SymbolEntry,
    st: MergedState,
    have_text: bool,
    have_ro: bool,
    have_rw: bool,
) -> SymbolStep {
    let t = e.info & 0xf;
    let b = e.info >> 4;
    if !valid_type_bits(t) {
        SymbolStep::Fail("BUG: couldn't get symtab entry type"@)
    } else if t == 0 || t == 3 {
        SymbolStep::Skip
    } else {
        match elf_string(input, e.name) {
            Err(_) => SymbolStep::Fail("BUG: couldn't get symtab entry name"@),
            Ok(name) => if !valid_binding_bits(b) {
                SymbolStep::Fail("BUG: couldn't get symtab entry binding"@)
            } else {
                let global = b == 1;
                let sym = symbol_of(name);
                let shndx = e.shndx as usize;
                if t == 2 {
                    if !have_text {
                        SymbolStep::Fail("BUG: found FUNC symbol but no text_pages were allocated"@)
                    } else {
                        SymbolStep::Load { typ: SectionType::Text, name: sym, pages: PagesKind::Text, offset: e.value, tls_offset: None, global, data: false }
                    }
                } else if t == 1 {
                    if st.rodata_shndx == Some(shndx) {
                        if !have_ro {
                            SymbolStep::Fail("BUG: found OBJECT symbol in .rodata but no rodata_pages were allocated"@)
                        } else {
                            SymbolStep::Load { typ: SectionType::Rodata, name: sym, pages: PagesKind::ReadOnly, offset: e.value, tls_offset: None, global, data: false }
                        }
                    } else if !have_rw {
                        SymbolStep::Fail("BUG: found OBJECT symbol in .data/.bss but no data_pages were allocated"@)
                    } else {
                        match st.rw_start {
                            None => SymbolStep::Fail("BUG: found OBJECT symbol in .data/.bss but `data_offset` was unknown"@),
                            Some(rw_start) => if st.data_shndx == Some(shndx) {
                                SymbolStep::Load { typ: SectionType::Data, name: sym, pages: PagesKind::ReadWrite, offset: e.value, tls_offset: None, global, data: true }
                            } else {
                                match st.bss {
                                    Some((bss_shndx, bss_offset)) if bss_shndx == shndx => if bss_offset < rw_start {
                                        SymbolStep::Panic
                                    } else {
                                        match add_u64(e.value, (bss_offset - rw_start) as u64) {
                                            None => SymbolStep::Panic,
                                            Some(o) => SymbolStep::Load { typ: SectionType::Bss, name: sym, pages: PagesKind::ReadWrite, offset: o, tls_offset: None, global, data: true },
                                        }
                                    },
                                    _ => SymbolStep::Fail("BUG: found OBJECT symbol with an shndx that wasn't in .rodata, .data, or .bss"@),
                                }
                            },
                        }
                    }
                } else if t == 6 {
                    if e.shndx == 0 {
                        SymbolStep::Skip
                    } else if !have_ro {
                        SymbolStep::Fail("BUG: found TLS symbol but no rodata_pages were allocated"@)
                    } else {
                        match st.tdata {
                            Some((tdata_shndx, tdata_offset, tdata_tls)) if tdata_shndx == shndx => match (add_u64(tdata_offset, e.value), add_u64(tdata_tls as u64, e.value)) {
                                (Some(o), Some(v)) => SymbolStep::Load { typ: SectionType::TlsData, name: sym, pages: PagesKind::ReadOnly, offset: o, tls_offset: Some(v), global, data: false },
                                _ => SymbolStep::Panic,
                            },
                            _ => match st.tbss {
                                Some((tbss_shndx, tbss_tls)) if tbss_shndx == shndx => match add_u64(tbss_tls as u64, e.value) {
                                    Some(v) => SymbolStep::Load { typ: SectionType::TlsBss, name: sym, pages: PagesKind::ReadOnly, offset: u64::MAX, tls_offset: Some(v), global, data: false },
                                    None => SymbolStep::Panic,
                                },
                                _ => SymbolStep::Fail("BUG: found TLS symbol with an shndx that wasn't in .tdata or .tbss"@),
                            },
                        }
                    }
                } else {
                    SymbolStep::Fail("Found unexpected symbol type"@)
                }
            },
        }
    }
}


/// What happens to one symbol, as the loader computes it.
pub enum SymbolStepResult {
    Skip,
    Fail(&'static str),
    Panic,
    Load {
        typ: SectionType,
        name: String,
        pages: PagesKind,
        offset: u64,
        tls_offset: Option<u64>,
        global: bool,
        data: bool,
    },
}

/// `r` is the computed form of `s`.
pub open spec fn symbol_step_is(r: SymbolStepResult, s: SymbolStep) -> bool {
    match r {
        SymbolStepResult::Skip => s is Skip,
        SymbolStepResult::Fail(m) => s matches SymbolStep::Fail(n) && m@ == n,
        SymbolStepResult::Panic => s is Panic,
        SymbolStepResult::Load { typ, name, pages, offset, tls_offset, global, data } => s matches SymbolStep::Load {
            typ: t2,
            name: n2,
            pages: p2,
            offset: o2,
            tls_offset: v2,
            global: g2,
            data: d2,
        } && typ == t2 && name@ == n2 && pages == p2 && offset == o2 && tls_offset == v2 && global == g2 && data == d2,
    }
}

/// Computes `add_u64`.
fn checked_add_u64(a: u64, b: u64) -> (r: Option<u64>)
    ensures
        r == add_u64(a, b),
{
    a.checked_add(b)
}

/// Decides what happens to symbol `e` of the merged object file `input`.
#[verifier::spinoff_prover]
#[verifier::rlimit(40)]
pub fn symbol_section_step(
    input: &[u8],
    e: SymbolEntry,
    st: MergedState,
    have_text: bool,
    have_ro: bool,
    have_rw: bool,
) -> (r: SymbolStepResult)
    requires
        header_parses(input@) ==> string_read_safe(input@, e.name as int),
        elf_readable(input@),
    ensures
        symbol_step_is(r, symbol_step(input@, e, st, have_text, have_ro, have_rw)),
{
    let t = e.info & 0xf;
    let b = e.info >> 4;
    if !(t <= 6 || (10 <= t && t <= 15)) {
        return SymbolStepResult::Fail("BUG: couldn't get symtab entry type");
    }
    if t == 0 || t == 3 {
        return SymbolStepResult::Skip;
    }
    let name = match string_at(input, e.name) {
        Err(_) => {
            return SymbolStepResult::Fail("BUG: couldn't get symtab entry name");
        },
        Ok(n) => n,
    };
    if !(b <= 2 || (10 <= b && b <= 15)) {
        return SymbolStepResult::Fail("BUG: couldn't get symtab entry binding");
    }
    let global = b == 1;
    let shndx = e.shndx as usize;
    if t == 2 {
        if !have_text {
            SymbolStepResult::Fail("BUG: found FUNC symbol but no text_pages were allocated")
        } else {
            SymbolStepResult::Load { typ: SectionType::Text, name: crate::section_loader::symbol_name(name.as_str()), pages: PagesKind::Text, offset: e.value, tls_offset: None, global, data: false }
        }
    } else if t == 1 {
        if st.rodata_shndx == Some(shndx) {
            if !have_ro {
                SymbolStepResult::Fail("BUG: found OBJECT symbol in .rodata but no rodata_pages were allocated")
            } else {
                SymbolStepResult::Load { typ: SectionType::Rodata, name: crate::section_loader::symbol_name(name.as_str()), pages: PagesKind::ReadOnly, offset: e.value, tls_offset: None, global, data: false }
            }
        } else if !have_rw {
            SymbolStepResult::Fail("BUG: found OBJECT symbol in .data/.bss but no data_pages were allocated")
        } else {
            match st.rw_start {
                None => SymbolStepResult::Fail("BUG: found OBJECT symbol in .data/.bss but `data_offset` was unknown"),
                Some(rw_start) => if st.data_shndx == Some(shndx) {
                    SymbolStepResult::Load { typ: SectionType::Data, name: crate::section_loader::symbol_name(name.as_str()), pages: PagesKind::ReadWrite, offset: e.value, tls_offset: None, global, data: true }
                } else {
                    match st.bss {
                        Some((bss_shndx, bss_offset)) if bss_shndx == shndx => if bss_offset < rw_start {
                            SymbolStepResult::Panic
                        } else {
                            match checked_add_u64(e.value, bss_offset - rw_start) {
                                None => SymbolStepResult::Panic,
                                Some(o) => SymbolStepResult::Load { typ: SectionType::Bss, name: crate::section_loader::symbol_name(name.as_str()), pages: PagesKind::ReadWrite, offset: o, tls_offset: None, global, data: true },
                            }
                        },
                        _ => SymbolStepResult::Fail("BUG: found OBJECT symbol with an shndx that wasn't in .rodata, .data, or .bss"),
                    }
                },
            }
        }
    } else if t == 6 {
        if e.shndx == 0 {
            SymbolStepResult::Skip
        } else if !have_ro {
            SymbolStepResult::Fail("BUG: found TLS symbol but no rodata_pages were allocated")
        } else {
            match st.tdata {
                Some((tdata_shndx, tdata_offset, tdata_tls)) if tdata_shndx == shndx => match (checked_add_u64(tdata_offset, e.value), checked_add_u64(tdata_tls as u64, e.value)) {
                    (Some(o), Some(v)) => SymbolStepResult::Load { typ: SectionType::TlsData, name: crate::section_loader::symbol_name(name.as_str()), pages: PagesKind::ReadOnly, offset: o, tls_offset: Some(v), global, data: false },
                    _ => SymbolStepResult::Panic,
                },
                _ => match st.tbss {
                    Some((tbss_shndx, tbss_tls)) if tbss_shndx == shndx => match checked_add_u64(tbss_tls as u64, e.value) {
                        Some(v) => SymbolStepResult::Load { typ: SectionType::TlsBss, name: crate::section_loader::symbol_name(name.as_str()), pages: PagesKind::ReadOnly, offset: u64::MAX, tls_offset: Some(v), global, data: false },
                        None => SymbolStepResult::Panic,
                    },
                    _ => SymbolStepResult::Fail("BUG: found TLS symbol with an shndx that wasn't in .tdata or .tbss"),
                },
            }
        }
    } else {
        SymbolStepResult::Fail("Found unexpected symbol type")
    }
}


/// The symbols' sections so far: the next key, the sections, and the keys of
/// the global ones and of the `.data`/`.bss` ones.
pub struct SymbolFold {
    pub last: usize,
    pub sections: Seq<MergedView>,
    pub globals: Seq<usize>,
    pub data_sections: Seq<usize>,
}

/// Where the symbols' pass ends.
pub enum SymbolOutcome {
    Done(SymbolFold),
    Failed(Seq<char>),
    Panics,
}

/// Turns the symbols `entries[i..]` into sections, from `f`.
pub open spec fn symbols_fold(
    input: Seq<u8>,
    entries: Seq<SymbolEntry>,
    st: MergedState,
    have_text: bool,
    have_ro: bool,
    have_rw: bool,
    i: int,
    f: SymbolFold,
) -> SymbolOutcome
    decreases entries.len() - i,
{
    if i < 0 || i >= entries.len() {
        SymbolOutcome::Done(f)
    } else {
        match symbol_step(input, entries[i], st, have_text, have_ro, have_rw) {
            SymbolStep::Skip => symbols_fold(input, entries, st, have_text, have_ro, have_rw, i + 1, f),
            SymbolStep::Fail(m) => SymbolOutcome::Failed(m),
            SymbolStep::Panic => SymbolOutcome::Panics,
            SymbolStep::Load { typ, name, pages, offset, tls_offset, global, data } => symbols_fold(
                input,
                entries,
                st,
                have_text,
                have_ro,
                have_rw,
                i + 1,
                SymbolFold {
                    last: (f.last + 1) as usize,
                    sections: f.sections.push(
                        MergedView {
                            key: f.last,
                            typ,
                            name,
                            pages,
                            mapped_pages_offset: offset,
                            tls_offset,
                            size: entries[i].size,
                            global,
                            source: DataSource::InMergedSection,
                        },
                    ),
                    globals: if global { f.globals.push(f.last) } else { f.globals },
                    data_sections: if data { f.data_sections.push(f.last) } else { f.data_sections },
                },
            ),
        }
    }
}

/// Turns the symbols of a merged crate (`entries`, from the file `input`) into
/// sections of their own, keyed from `p.st.last_shndx` on and appended to
/// those of `p`. Stops at the first symbol that cannot be loaded and returns
/// its message; returns `None` where loading cannot go on.
pub fn load_symbol_sections(
    input: &[u8],
    entries: &Vec<SymbolEntry>,
    p: MergedProgress,
    have_text: bool,
    have_ro: bool,
    have_rw: bool,
) -> (r: Option<Result<(MergedProgress, Vec<usize>), &'static str>>)
    requires
        elf_readable(input@),
        names_readable(input@, entries@),
        p.st.last_shndx + entries.len() < usize::MAX,
    ensures
        match symbols_fold(
            input@,
            entries@,
            p.st,
            have_text,
            have_ro,
            have_rw,
            0,
            SymbolFold { last: p.st.last_shndx, sections: p.sections@.map_values(|s: MergedSection| merged_view(s)), globals: Seq::empty(), data_sections: p.data_sections@ },
        ) {
            SymbolOutcome::Done(f) => r matches Some(Ok((q, globals))) && merged_sections_are(q.sections@, f.sections)
                && globals@ == f.globals && q.data_sections@ == f.data_sections && q.tls_sections@ == p.tls_sections@
                && q.st == (MergedState { last_shndx: f.last, ..p.st }),
            SymbolOutcome::Failed(m) => r matches Some(Err(e)) && e@ == m,
            SymbolOutcome::Panics => r is None,
        },
{
    let st = p.st;
    let ghost init = SymbolFold { last: p.st.last_shndx, sections: p.sections@.map_values(|s: MergedSection| merged_view(s)), globals: Seq::empty(), data_sections: p.data_sections@ };
    let ghost mut f = init;
    let mut sections = p.sections;
    let mut data_sections = p.data_sections;
    let tls_sections = p.tls_sections;
    let mut globals: Vec<usize> = Vec::new();
    let mut last = st.last_shndx;
    proof {
        assert forall|j: int| 0 <= j < sections@.len() implies #[trigger] merged_view(sections@[j]) == init.sections[j] by {}
    }
    let mut i: usize = 0;
    while i < entries.len()
        invariant
            elf_readable(input@),
            names_readable(input@, entries@),
            i <= entries.len(),
            st == p.st,
            init == (SymbolFold { last: p.st.last_shndx, sections: p.sections@.map_values(|s: MergedSection| merged_view(s)), globals: Seq::empty(), data_sections: p.data_sections@ }),
            tls_sections@ == p.tls_sections@,
            st.last_shndx + entries.len() < usize::MAX,
            last == f.last,
            last <= st.last_shndx + i,
            symbols_fold(input@, entries@, st, have_text, have_ro, have_rw, 0, init) == symbols_fold(
                input@,
                entries@,
                st,
                have_text,
                have_ro,
                have_rw,
                i as int,
                f,
            ),
            merged_sections_are(sections@, f.sections),
            globals@ == f.globals,
            data_sections@ == f.data_sections,
        decreases entries.len() - i,
    {
        let e = entries[i];
        match symbol_section_step(input, e, st, have_text, have_ro, have_rw) {
            SymbolStepResult::Skip => {},
            SymbolStepResult::Fail(m) => {
                return Some(Err(m));
            },
            SymbolStepResult::Panic => {
                return None;
            },
            SymbolStepResult::Load { typ, name, pages, offset, tls_offset, global, data } => {
                let x = MergedSection {
                    key: last,
                    typ,
                    name,
                    pages,
                    mapped_pages_offset: offset,
                    tls_offset,
                    size: e.size,
                    global,
                    source: DataSource::InMergedSection,
                };
                proof {
                    lemma_sections_push(sections@, f.sections, x);
                    f = SymbolFold {
                        last: (f.last + 1) as usize,
                        sections: f.sections.push(merged_view(x)),
                        globals: if global { f.globals.push(f.last) } else { f.globals },
                        data_sections: if data { f.data_sections.push(f.last) } else { f.data_sections },
                    };
                }
                sections.push(x);
                if global {
                    globals.push(last);
                }
                if data {
                    data_sections.push(last);
                }
                last = last + 1;
            },
        }
        i = i + 1;
    }
    Some(Ok((MergedProgress { st: MergedState { last_shndx: last, ..st }, sections, tls_sections, data_sections }, globals)))
}


/// The sections of a merged crate: the merged sections, then the symbols'
/// sections; the keys of the global sections, of the TLS sections and of the
/// read-write sections.
pub struct MergedPlan {
    pub sections: Vec<MergedSection>,
    pub global_sections: Vec<usize>,
    pub tls_sections: Vec<usize>,
    pub data_sections: Vec<usize>,
}

/// What `plan_merged_crate_sections` returns for the object file `input`
/// laid out as `layout`, with the TLS area `tls0` before and `tls1` after.
pub open spec fn merged_planned(
    input: Seq<u8>,
    layout: CrateLayout,
    tls0: TlsInitializer,
    tls1: TlsInitializer,
    r: Option<Result<MergedPlan, &'static str>>,
) -> bool {
    ({
        let have_text = layout.text_bytes > 0;
        let have_ro = layout.ro_bytes > 0;
        let have_rw = layout.rw_bytes > 0;
        match merged_sections_fold(layout.inputs@, have_text, have_ro, have_rw, 0, initial_merged_fold(tls0)) {
            MergedOutcome::Failed(m) => r matches Some(Err(e)) && e@ == m,
            MergedOutcome::Panics => r is None,
            MergedOutcome::Done(f) => tls1.dynamic_points() == f.pts && tls1.records() == f.recs && match first_symtab(layout.sections@) {
                Some(i) if elf_symbol_count(input, i as u16) is Some => exists|entries: Seq<SymbolEntry>|
                    #![trigger symbols_of(input, i as u16, entries)]
                    symbols_of(input, i as u16, entries) && (f.st.last_shndx + entries.len() < usize::MAX - 0x10000 ==> match symbols_fold(
                        input,
                        entries,
                        f.st,
                        have_text,
                        have_ro,
                        have_rw,
                        0,
                        SymbolFold { last: f.st.last_shndx, sections: f.sections, globals: Seq::empty(), data_sections: f.data_sections },
                    ) {
                        SymbolOutcome::Done(g) => r matches Some(Ok(plan)) && merged_sections_are(plan.sections@, g.sections)
                            && plan.global_sections@ == g.globals && plan.tls_sections@ == f.tls_sections
                            && plan.data_sections@ == g.data_sections,
                        SymbolOutcome::Failed(m) => r matches Some(Err(e)) && e@ == m,
                        SymbolOutcome::Panics => r is None,
                    }) && (f.st.last_shndx + entries.len() >= usize::MAX - 0x10000 ==> r is None),
                _ => r matches Some(Err(e)) && e@ == "no symbol table found. Was file stripped?"@,
            },
        }
    })
}

/// Loads the sections of a crate's object file whose sections have been
/// merged: first the merged sections (see `load_merged_sections`), then a
/// section for each function, object and TLS symbol of its symbol table (see
/// `load_symbol_sections`). Returns `None` where loading cannot go on or the
/// number of symbols leaves no room for their keys.
#[verifier::rlimit(30)]
pub fn plan_merged_crate_sections(input: &[u8], layout: &CrateLayout, tls: &mut TlsInitializer) -> (r: Option<
    Result<MergedPlan, &'static str>,
>)
    requires
        elf_readable(input@),
        old(tls).wf(),
        sections_of(input@, layout.sections@),
        inputs_of(input@, layout.sections@, layout.inputs@),
        old(tls).records().len() + layout.inputs.len() + 1 < usize::MAX,
    ensures
        final(tls).wf(),
        merged_planned(input@, *layout, *old(tls), *final(tls), r),
{
    proof {
        assert(layout.sections.len() <= SHN_LORESERVE) by {
            if layout.sections.len() > SHN_LORESERVE {
                assert(crate::elf::iterated_section(input@, SHN_LORESERVE as int));
            }
        }
        lemma_alloc_indices_len(layout.sections@);
        assert forall|j: int| 0 <= j < layout.inputs.len() implies (#[trigger] layout.inputs@[j]).shndx < 0xff00 by {
            assert(crate::section_loader::input_read_from(
                input@,
                layout.inputs@[j],
                alloc_indices(layout.sections@)[j],
                layout.sections@[alloc_indices(layout.sections@)[j] as int],
            ));
        }
    }
    let have_text = layout.text_bytes > 0;
    let have_ro = layout.ro_bytes > 0;
    let have_rw = layout.rw_bytes > 0;
    let p = match load_merged_sections(&layout.inputs, have_text, have_ro, have_rw, tls) {
        None => {
            return None;
        },
        Some(Err(e)) => {
            return Some(Err(e));
        },
        Some(Ok(p)) => p,
    };
    let symtab = match find_symbol_table(input, &layout.sections) {
        Err(e) => {
            return Some(Err(e));
        },
        Ok(i) => i,
    };
    let entries = read_symbol_entries(input, symtab);
    proof {
        assert(symbols_of(input@, symtab, entries@));
        lemma_entries_names_readable(input@, symtab, entries@);
    }
    if entries.len() >= usize::MAX - 0x10000 || p.st.last_shndx >= usize::MAX - 0x10000 - entries.len() {
        return None;
    }
    proof {
        assert(p.sections@.map_values(|s: MergedSection| merged_view(s)) =~= merged_sections_fold(
            layout.inputs@,
            have_text,
            have_ro,
            have_rw,
            0,
            initial_merged_fold(*old(tls)),
        )->Done_0.sections);
    }
    match load_symbol_sections(input, &entries, p, have_text, have_ro, have_rw) {
        None => None,
        Some(Err(e)) => Some(Err(e)),
        Some(Ok((q, globals))) => Some(
            Ok(MergedPlan { sections: q.sections, global_sections: globals, tls_sections: q.tls_sections, data_sections: q.data_sections }),
        ),
    }
}

/// Whether section flags `flags` mark neither a writable, an executable nor
/// a TLS section: the read-only sections, told apart by name.
pub open spec fn plain_flags(flags: u64) -> bool {
    flags & SHF_WRITE != SHF_WRITE && flags & SHF_EXECINSTR != SHF_EXECINSTR && flags & SHF_TLS != SHF_TLS
}

/// A loaded merged section's type follows its name: among sections that are
/// neither writable, executable nor TLS, `.rodata` is loaded as `Rodata`,
/// `.eh_frame` as `EhFrame` and `.gcc_except_table` as `GccExceptTable`, and
/// no other section gets one of these types; all three go in the read-only
/// pages. The remembered index of `.rodata` changes only to the index of
/// the section being loaded, and only where that section is `.rodata`.
pub proof fn law_merged_type_follows_name(
    inp: SectionInput,
    st: MergedState,
    have_text: bool,
    have_ro: bool,
    have_rw: bool,
)
    ensures
        merged_step(inp, st, have_text, have_ro, have_rw) matches MergedStep::Load { typ, pages, st: st2, offset, tls, .. } ==> {
            let plain = plain_flags(inp.header.flags);
            let f = inp.header.flags;
            let is_write = f & SHF_WRITE == SHF_WRITE;
            let is_exec = f & SHF_EXECINSTR == SHF_EXECINSTR;
            let is_tls = f & SHF_TLS == SHF_TLS;
            &&& pages == group_of_type(typ)
            &&& (typ == SectionType::Text <==> is_exec)
            &&& ((typ == SectionType::Data || typ == SectionType::Bss) <==> !is_exec && is_write && !is_tls)
            &&& ((typ == SectionType::TlsData || typ == SectionType::TlsBss) <==> !is_exec && is_tls)
            &&& (tls <==> (typ == SectionType::TlsData || typ == SectionType::TlsBss))
            &&& (plain ==> (st2.ro_start matches Some(s0) && s0 + offset == inp.header.offset))
            &&& (typ == SectionType::Rodata <==> plain && input_name(inp) == Some(".rodata"@))
            &&& (typ == SectionType::EhFrame <==> plain && input_name(inp) == Some(".eh_frame"@))
            &&& (typ == SectionType::GccExceptTable <==> plain && input_name(inp) == Some(".gcc_except_table"@))
            &&& (plain ==> pages == PagesKind::ReadOnly)
            &&& (st2.rodata_shndx != st.rodata_shndx ==> st2.rodata_shndx == Some(inp.shndx) && input_name(inp)
                == Some(".rodata"@))
        },
{
    reveal_strlit(".rodata");
    reveal_strlit(".eh_frame");
    reveal_strlit(".gcc_except_table");
    assert(".rodata"@ != ".eh_frame"@) by {
        assert(".rodata"@.len() != ".eh_frame"@.len());
    }
    assert(".gcc_except_table"@ != ".eh_frame"@) by {
        assert(".gcc_except_table"@.len() != ".eh_frame"@.len());
    }
    assert(".gcc_except_table"@ != ".rodata"@) by {
        assert(".gcc_except_table"@.len() != ".rodata"@.len());
    }
}

} // verus!
