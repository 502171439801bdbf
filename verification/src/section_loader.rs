//! How the sections of a crate's object file are laid out when the crate is
//! loaded: which sections are loaded, with which type and name, into which of
//! the crate's three page groups (executable, read-only, read-write) and at
//! which offset, where their contents come from, and how large each page group
//! must be.

use crate::demangle::{demangle_forms, demangled};
use crate::elf::{elf_readable, elf_symbol_count, first_symtab, find_symbol_table, global_section_indices, is_global_symbol, read_symbol_entries, elf_symbol_entry, symbol_fields, SymbolEntry, elf_file_type, elf_header_error, file_type, header_error, iterated_count, read_section_headers, ElfSection, SectionKind, SHF_ALLOC, SHF_EXECINSTR, SHF_TLS, SHF_WRITE, SHN_LORESERVE, elf_section_fields, elf_section_name, section_fields, section_header, section_name};
use crate::section::SectionType;
use crate::nano_core::is_canonical;
use crate::tls::{align_up, dynamic_slot_fits, lemma_align_up, TlsInitializer, TlsSectionRecord, CacheStatus};
use crate::range_map::points_after_insert;
use vstd::prelude::*;
use vstd::utf8::{decode_utf8, encode_utf8, is_char_boundary};

verus! {

/// The page group a loaded section lives in.
#[derive(Debug, Clone, Copy, PartialEq, Eq, Structural)]
pub enum PagesKind {
    /// The executable pages, which hold all `.text` sections
    Text,
    /// The read-only pages: `.rodata`, TLS initializer data, `.eh_frame`, `.gcc_except_table`
    ReadOnly,
    /// The read-write pages: `.data` and `.bss`
    ReadWrite,
}

/// Where the contents of a loaded section come from.
#[derive(Debug, Clone, Copy, PartialEq, Eq, Structural)]
pub enum DataSource {
    /// Copied together with all `.text` sections, from the start of the file
    WithText,
    /// The bytes `offset..offset + size` of the object file
    File { offset: u64, size: u64 },
    /// Zero bytes
    Zeroed,
    /// Nothing: a `.tbss` section occupies no memory
    NoData,
    /// Nothing to copy: a symbol's section lies inside a merged section that was copied
    InMergedSection,
}

/// The contents of a section of the given kind: its bytes in the file where
/// `xmas_elf` hands them out raw, zeros where it hands out nothing, `None` otherwise.
pub open spec fn data_source(kind: SectionKind, offset: u64, size: u64) -> Option<DataSource> {
    match kind {
        SectionKind::ProgBits => Some(DataSource::File { offset, size }),
        SectionKind::RawData => Some(DataSource::File { offset, size }),
        SectionKind::Null => Some(DataSource::Zeroed),
        SectionKind::NoBits => Some(DataSource::Zeroed),
        _ => None,
    }
}

/// The characters of `s` after its first `k` bytes, where byte `k` starts a
/// character (or is the end), as `str::get(k..)` gives them.
pub open spec fn after_bytes(s: Seq<char>, k: int) -> Option<Seq<char>> {
    let b = encode_utf8(s);
    if is_char_boundary(b, k) {
        Some(decode_utf8(b.subrange(k, b.len() as int)))
    } else {
        None
    }
}

/// Whether `s` starts with `prefix`.
pub open spec fn has_prefix(s: Seq<char>, prefix: Seq<char>) -> bool {
    prefix.len() <= s.len() && s.subrange(0, prefix.len() as int) == prefix
}

/// Returns whether `s` starts with `prefix`.
pub fn starts_with(s: &str, prefix: &str) -> (r: bool)
    ensures
        r == has_prefix(s@, prefix@),
{
    let a = crate::text::chars_of(s);
    let p = crate::text::chars_of(prefix);
    if p.len() > a.len() {
        return false;
    }
    let mut i: usize = 0;
    while i < p.len()
        invariant
            a@ == s@,
            p@ == prefix@,
            p.len() <= a.len(),
            i <= p.len(),
            forall|j: int| 0 <= j < i ==> a@[j] == p@[j],
        decreases p.len() - i,
    {
        if a[i] != p[i] {
            assert(s@.subrange(0, prefix@.len() as int)[i as int] != prefix@[i as int]);
            return false;
        }
        i = i + 1;
    }
    assert(s@.subrange(0, prefix@.len() as int) =~= prefix@);
    true
}

/// Returns the part of `s` after its first `k` bytes, where byte `k` starts
/// a character or is the end of `s`, as `str::get(k..)` does.
pub fn after_byte(s: &str, k: usize) -> (r: Option<String>)
    ensures
        match after_bytes(s@, k as int) {
            None => r is None,
            Some(t) => r matches Some(x) && x@ == t,
        },
{
    if s.is_char_boundary(k) {
        let (_, tail) = s.split_at(k);
        let t = tail.to_owned();
        proof {
            vstd::utf8::encode_utf8_decode_utf8(tail@);
        }
        Some(t)
    } else {
        None
    }
}


/// What is known of one allocated section before it is loaded: its index, its
/// header, its name (`None` where it could not be read) and, for a section of
/// size zero, the header of the section after it (`None` where that could not be read).
pub struct SectionInput {
    pub shndx: usize,
    pub header: ElfSection,
    pub name: Option<String>,
    pub next: Option<ElfSection>,
}

/// The name of a section input, as characters.
pub open spec fn input_name(inp: SectionInput) -> Option<Seq<char>> {
    match inp.name {
        Some(n) => Some(n@),
        None => None,
    }
}

/// The header whose size, alignment, type and contents stand for the section:
/// a section of size zero stands for the next section where both start at the
/// same file offset.
pub open spec fn effective_header(header: ElfSection, next: Option<ElfSection>) -> ElfSection {
    if header.size == 0 && (next matches Some(n) && n.offset == header.offset) {
        next->0
    } else {
        header
    }
}

/// The outcome of loading one allocated section.
pub enum Step {
    /// The section is not loaded.
    Skip,
    /// Loading fails with this message.
    Fail(Seq<char>),
    /// The section is loaded as described.
    Load(StepLoad),
}

/// How one section is loaded.
pub struct StepLoad {
    pub typ: SectionType,
    pub name: Seq<char>,
    pub pages: PagesKind,
    pub global: bool,
    pub source: DataSource,
    pub size: u64,
    pub align: u64,
    pub text_offset: u64,
}

/// The name after a section-name prefix of `k` bytes: the rest of the name;
/// nothing for the empty placeholder sections `.text`, `.rodata`, `.data` and
/// `.bss`; the message `fail` for any other name too short for the prefix.
pub open spec fn name_after_prefix(name: Seq<char>, k: int, fail: Seq<char>) -> Step {
    match after_bytes(name, k) {
        Some(rest) => Step::Load(
            StepLoad {
                typ: SectionType::Text,
                name: rest,
                pages: PagesKind::Text,
                global: false,
                source: DataSource::NoData,
                size: 0,
                align: 0,
                text_offset: 0,
            },
        ),
        None => if name == ".text"@ || name == ".rodata"@ || name == ".data"@ || name == ".bss"@ {
            Step::Skip
        } else {
            Step::Fail(fail)
        },
    }
}

/// The symbol name carried by a section name: the demangled form, with its hash.
pub open spec fn symbol_of(name: Seq<char>) -> Seq<char> {
    demangled(name).1
}

/// A loaded section of a read-only or read-write group, with contents from `source`.
pub open spec fn load_in(
    typ: SectionType,
    name: Seq<char>,
    pages: PagesKind,
    global: bool,
    source: DataSource,
    eff: ElfSection,
) -> Step {
    Step::Load(
        StepLoad { typ, name, pages, global, source, size: eff.size, align: eff.align, text_offset: 0 },
    )
}

/// How one allocated section of an object file whose sections have not been
/// merged is loaded; `globals` holds the indices of globally visible sections
/// and `have_*` tell which page groups were allocated.
pub open spec fn separate_step(
    inp: SectionInput,
    globals: Set<usize>,
    have_text: bool,
    have_ro: bool,
    have_rw: bool,
) -> Step {
    match input_name(inp) {
        None => Step::Fail("couldn't get section name"@),
        Some(name) => if inp.header.size == 0 && inp.next is None {
            Step::Fail("couldn't get next section for a zero-sized section"@)
        } else {
            let eff = effective_header(inp.header, inp.next);
            let flags = inp.header.flags;
            let is_write = flags & SHF_WRITE == SHF_WRITE;
            let is_exec = flags & SHF_EXECINSTR == SHF_EXECINSTR;
            let is_tls = flags & SHF_TLS == SHF_TLS;
            let global = globals.contains(inp.shndx);
            if is_exec && !is_write {
                match name_after_prefix(name, 6, "Failed to get the .text. section's name after '.text.'"@) {
                    Step::Load(l) => {
                        let rest = if global && has_prefix(l.name, "unlikely."@) {
                            l.name.subrange(9, l.name.len() as int)
                        } else {
                            l.name
                        };
                        if !have_text {
                            Step::Fail("BUG: ELF file contained a .text* section, but no text_pages were allocated"@)
                        } else {
                            Step::Load(
                                StepLoad {
                                    typ: SectionType::Text,
                                    name: symbol_of(rest),
                                    pages: PagesKind::Text,
                                    global,
                                    source: DataSource::WithText,
                                    size: eff.size,
                                    align: eff.align,
                                    text_offset: eff.offset,
                                },
                            )
                        }
                    },
                    other => other,
                }
            } else if is_tls {
                let is_bss = eff.kind == SectionKind::NoBits;
                let named = if is_bss {
                    name_after_prefix(name, 6, "Failed to get the .tbss. section's name after '.tbss.'"@)
                } else {
                    name_after_prefix(name, 7, "Failed to get the .tdata. section's name after '.tdata.'"@)
                };
                match named {
                    Step::Load(l) => if !have_ro {
                        Step::Fail("no rodata_pages were allocated when handling TLS section"@)
                    } else if is_bss {
                        load_in(SectionType::TlsBss, symbol_of(l.name), PagesKind::ReadOnly, global, DataSource::NoData, eff)
                    } else {
                        match data_source(eff.kind, eff.offset, eff.size) {
                            Some(DataSource::File { offset, size }) => load_in(
                                SectionType::TlsData,
                                symbol_of(l.name),
                                PagesKind::ReadOnly,
                                global,
                                DataSource::File { offset, size },
                                eff,
                            ),
                            _ => Step::Fail("couldn't get section data in TLS .tdata section"@),
                        }
                    },
                    other => other,
                }
            } else if is_write {
                let is_bss = eff.kind == SectionKind::NoBits;
                let named = if is_bss {
                    name_after_prefix(name, 5, "Failed to get the .bss. section's name after '.bss.'"@)
                } else {
                    name_after_prefix(name, 6, "Failed to get the .data. section's name after '.data.'"@)
                };
                match named {
                    Step::Load(l) => if !have_rw {
                        Step::Fail("no data_pages were allocated for .data/.bss section"@)
                    } else {
                        match data_source(eff.kind, eff.offset, eff.size) {
                            Some(src) => load_in(
                                if is_bss { SectionType::Bss } else { SectionType::Data },
                                symbol_of(l.name),
                                PagesKind::ReadWrite,
                                global,
                                src,
                                eff,
                            ),
                            None => Step::Fail("couldn't get section data in .data section"@),
                        }
                    },
                    other => other,
                }
            } else if has_prefix(name, ".rodata."@) {
                match name_after_prefix(name, 8, "Failed to get the .rodata. section's name after '.rodata.'"@) {
                    Step::Load(l) => if !have_ro {
                        Step::Fail("no rodata_pages were allocated when handling .rodata section"@)
                    } else {
                        match data_source(eff.kind, eff.offset, eff.size) {
                            Some(src) => load_in(SectionType::Rodata, symbol_of(l.name), PagesKind::ReadOnly, global, src, eff),
                            None => Step::Fail("couldn't get section data in .rodata section"@),
                        }
                    },
                    other => other,
                }
            } else if has_prefix(name, ".gcc_except_table."@) {
                if !have_ro {
                    Step::Fail("no rodata_pages were allocated when handling .gcc_except_table"@)
                } else {
                    match data_source(eff.kind, eff.offset, eff.size) {
                        Some(src) => load_in(
                            SectionType::GccExceptTable,
                            SectionType::GccExceptTable.spec_name(),
                            PagesKind::ReadOnly,
                            false,
                            src,
                            eff,
                        ),
                        None => Step::Fail("couldn't get section data in .gcc_except_table section"@),
                    }
                }
            } else if name == ".eh_frame"@ {
                if !have_ro {
                    Step::Fail("no rodata_pages were allocated when handling .eh_frame"@)
                } else {
                    match data_source(eff.kind, eff.offset, eff.size) {
                        Some(src) => load_in(SectionType::EhFrame, SectionType::EhFrame.spec_name(), PagesKind::ReadOnly, false, src, eff),
                        None => Step::Fail("couldn't get section data in .eh_frame section"@),
                    }
                }
            } else if has_prefix(name, ".debug"@) {
                Step::Skip
            } else {
                Step::Fail("load_crate_sections(): section with unhandled type, name, or flags!"@)
            }
        },
    }
}


/// How one section is loaded, as the loader computes it.
pub enum StepResult {
    Skip,
    Fail(&'static str),
    Load(LoadInfo),
}

/// How one section is loaded: its type, its name, its page group, whether it
/// is globally visible, where its contents come from, its size and alignment
/// and, for a `.text` section, its offset in the file (and in the text pages).
pub struct LoadInfo {
    pub typ: SectionType,
    pub name: String,
    pub pages: PagesKind,
    pub global: bool,
    pub source: DataSource,
    pub size: u64,
    pub align: u64,
    pub text_offset: u64,
}

/// `r` is the computed form of the outcome `s`.
pub open spec fn step_result_is(r: StepResult, s: Step) -> bool {
    match r {
        StepResult::Skip => s is Skip,
        StepResult::Fail(m) => s matches Step::Fail(n) && m@ == n,
        StepResult::Load(a) => s matches Step::Load(b) && a.typ == b.typ && a.name@ == b.name && a.pages
            == b.pages && a.global == b.global && a.source == b.source && a.size == b.size && a.align
            == b.align && a.text_offset == b.text_offset,
    }
}

/// Returns whether two strings hold the same characters.
pub fn str_eq(a: &str, b: &str) -> (r: bool)
    ensures
        r == (a@ == b@),
{
    let x = crate::text::chars_of(a);
    let y = crate::text::chars_of(b);
    if x.len() != y.len() {
        return false;
    }
    let mut i: usize = 0;
    while i < x.len()
        invariant
            x@ == a@,
            y@ == b@,
            x.len() == y.len(),
            i <= x.len(),
            forall|j: int| 0 <= j < i ==> x@[j] == y@[j],
        decreases x.len() - i,
    {
        if x[i] != y[i] {
            return false;
        }
        i = i + 1;
    }
    assert(a@ =~= b@);
    true
}

/// Returns whether `v` holds `x`.
pub fn vec_contains(v: &Vec<usize>, x: usize) -> (r: bool)
    ensures
        r == v@.contains(x),
{
    let mut i: usize = 0;
    while i < v.len()
        invariant
            i <= v.len(),
            forall|j: int| 0 <= j < i ==> v@[j] != x,
        decreases v.len() - i,
    {
        if v[i] == x {
            assert(v@[i as int] == x);
            return true;
        }
        i = i + 1;
    }
    false
}

/// Computes `name_after_prefix`.
fn after_prefix(name: &str, k: usize, fail: &'static str) -> (r: StepResult)
    ensures
        step_result_is(r, name_after_prefix(name@, k as int, fail@)),
{
    match after_byte(name, k) {
        Some(rest) => StepResult::Load(
            LoadInfo {
                typ: SectionType::Text,
                name: rest,
                pages: PagesKind::Text,
                global: false,
                source: DataSource::NoData,
                size: 0,
                align: 0,
                text_offset: 0,
            },
        ),
        None => {
            if str_eq(name, ".text") || str_eq(name, ".rodata") || str_eq(name, ".data") || str_eq(
                name,
                ".bss",
            ) {
                StepResult::Skip
            } else {
                StepResult::Fail(fail)
            }
        },
    }
}

/// Returns the demangled form, with its hash, of a symbol name.
pub fn symbol_name(name: &str) -> (r: String)
    ensures
        r@ == symbol_of(name@),
{
    let (_, with_hash) = demangle_forms(name);
    with_hash
}


/// Computes `data_source`.
pub fn data_source_of(kind: SectionKind, offset: u64, size: u64) -> (r: Option<DataSource>)
    ensures
        r == data_source(kind, offset, size),
{
    match kind {
        SectionKind::ProgBits | SectionKind::RawData => Some(DataSource::File { offset, size }),
        SectionKind::Null | SectionKind::NoBits => Some(DataSource::Zeroed),
        _ => None,
    }
}

/// Builds the load description of a section of a read-only or read-write group.
fn load_info_in(typ: SectionType, name: String, pages: PagesKind, global: bool, source: DataSource, eff: ElfSection) -> (r:
    StepResult)
    ensures
        step_result_is(r, load_in(typ, name@, pages, global, source, eff)),
{
    StepResult::Load(LoadInfo { typ, name, pages, global, source, size: eff.size, align: eff.align, text_offset: 0 })
}

/// Decides how one allocated section of an object file whose sections have
/// not been merged is loaded: `globals` holds the indices of the globally
/// visible sections, `have_*` tell which page groups were allocated.
#[verifier::spinoff_prover]
#[verifier::rlimit(40)]
pub fn separate_section_step(
    inp: &SectionInput,
    globals: &Vec<usize>,
    have_text: bool,
    have_ro: bool,
    have_rw: bool,
) -> (r: StepResult)
    ensures
        step_result_is(r, separate_step(*inp, globals@.to_set(), have_text, have_ro, have_rw)),
{
    let name: &str = match &inp.name {
        None => {
            return StepResult::Fail("couldn't get section name");
        },
        Some(n) => n.as_str(),
    };
    let eff = if inp.header.size == 0 {
        match inp.next {
            None => {
                return StepResult::Fail("couldn't get next section for a zero-sized section");
            },
            Some(next) => if next.offset == inp.header.offset {
                next
            } else {
                inp.header
            },
        }
    } else {
        inp.header
    };
    let flags = inp.header.flags;
    let is_write = flags & SHF_WRITE == SHF_WRITE;
    let is_exec = flags & SHF_EXECINSTR == SHF_EXECINSTR;
    let is_tls = flags & SHF_TLS == SHF_TLS;
    let global = vec_contains(globals, inp.shndx);
    proof {
        assert(global == globals@.to_set().contains(inp.shndx));
    }
    if is_exec && !is_write {
        match after_prefix(name, 6, "Failed to get the .text. section's name after '.text.'") {
            StepResult::Load(l) => {
                let rest = if global && starts_with(l.name.as_str(), "unlikely.") {
                    proof {
                        reveal_strlit("unlikely.");
                    }
                    let n = crate::text::chars_of(l.name.as_str()).len();
                    crate::text::substring(l.name.as_str(), 9, n).to_owned()
                } else {
                    l.name
                };
                if !have_text {
                    StepResult::Fail("BUG: ELF file contained a .text* section, but no text_pages were allocated")
                } else {
                    StepResult::Load(
                        LoadInfo {
                            typ: SectionType::Text,
                            name: symbol_name(rest.as_str()),
                            pages: PagesKind::Text,
                            global,
                            source: DataSource::WithText,
                            size: eff.size,
                            align: eff.align,
                            text_offset: eff.offset,
                        },
                    )
                }
            },
            other => other,
        }
    } else if is_tls {
        let is_bss = eff.kind == SectionKind::NoBits;
        let named = if is_bss {
            after_prefix(name, 6, "Failed to get the .tbss. section's name after '.tbss.'")
        } else {
            after_prefix(name, 7, "Failed to get the .tdata. section's name after '.tdata.'")
        };
        match named {
            StepResult::Load(l) => if !have_ro {
                StepResult::Fail("no rodata_pages were allocated when handling TLS section")
            } else if is_bss {
                load_info_in(
                    SectionType::TlsBss,
                    symbol_name(l.name.as_str()),
                    PagesKind::ReadOnly,
                    global,
                    DataSource::NoData,
                    eff,
                )
            } else {
                match data_source_of(eff.kind, eff.offset, eff.size) {
                    Some(DataSource::File { offset, size }) => load_info_in(
                        SectionType::TlsData,
                        symbol_name(l.name.as_str()),
                        PagesKind::ReadOnly,
                        global,
                        DataSource::File { offset, size },
                        eff,
                    ),
                    _ => StepResult::Fail("couldn't get section data in TLS .tdata section"),
                }
            },
            other => other,
        }
    } else if is_write {
        let is_bss = eff.kind == SectionKind::NoBits;
        let named = if is_bss {
            after_prefix(name, 5, "Failed to get the .bss. section's name after '.bss.'")
        } else {
            after_prefix(name, 6, "Failed to get the .data. section's name after '.data.'")
        };
        match named {
            StepResult::Load(l) => if !have_rw {
                StepResult::Fail("no data_pages were allocated for .data/.bss section")
            } else {
                match data_source_of(eff.kind, eff.offset, eff.size) {
                    Some(src) => load_info_in(
                        if is_bss {
                            SectionType::Bss
                        } else {
                            SectionType::Data
                        },
                        symbol_name(l.name.as_str()),
                        PagesKind::ReadWrite,
                        global,
                        src,
                        eff,
                    ),
                    None => StepResult::Fail("couldn't get section data in .data section"),
                }
            },
            other => other,
        }
    } else if starts_with(name, ".rodata.") {
        match after_prefix(name, 8, "Failed to get the .rodata. section's name after '.rodata.'") {
            StepResult::Load(l) => if !have_ro {
                StepResult::Fail("no rodata_pages were allocated when handling .rodata section")
            } else {
                match data_source_of(eff.kind, eff.offset, eff.size) {
                    Some(src) => load_info_in(
                        SectionType::Rodata,
                        symbol_name(l.name.as_str()),
                        PagesKind::ReadOnly,
                        global,
                        src,
                        eff,
                    ),
                    None => StepResult::Fail("couldn't get section data in .rodata section"),
                }
            },
            other => other,
        }
    } else if starts_with(name, ".gcc_except_table.") {
        if !have_ro {
            StepResult::Fail("no rodata_pages were allocated when handling .gcc_except_table")
        } else {
            match data_source_of(eff.kind, eff.offset, eff.size) {
                Some(src) => load_info_in(
                    SectionType::GccExceptTable,
                    SectionType::GccExceptTable.name().to_owned(),
                    PagesKind::ReadOnly,
                    false,
                    src,
                    eff,
                ),
                None => StepResult::Fail("couldn't get section data in .gcc_except_table section"),
            }
        }
    } else if str_eq(name, ".eh_frame") {
        if !have_ro {
            StepResult::Fail("no rodata_pages were allocated when handling .eh_frame")
        } else {
            match data_source_of(eff.kind, eff.offset, eff.size) {
                Some(src) => load_info_in(
                    SectionType::EhFrame,
                    SectionType::EhFrame.name().to_owned(),
                    PagesKind::ReadOnly,
                    false,
                    src,
                    eff,
                ),
                None => StepResult::Fail("couldn't get section data in .eh_frame section"),
            }
        }
    } else if starts_with(name, ".debug") {
        StepResult::Skip
    } else {
        StepResult::Fail("load_crate_sections(): section with unhandled type, name, or flags!")
    }
}


/// A section placed in the crate's pages: its index, how it is loaded, its
/// offset in its page group (`u64::MAX` for a `.tbss` section, which occupies
/// none) and, for a TLS section, its offset in the TLS area.
pub struct PlannedSection {
    pub shndx: usize,
    pub info: LoadInfo,
    pub mapped_pages_offset: u64,
    pub tls_offset: Option<usize>,
}

/// A placed section, as a specification value.
pub struct PlannedView {
    pub shndx: usize,
    pub load: StepLoad,
    pub mapped_pages_offset: u64,
    pub tls_offset: Option<usize>,
}

/// `p` is the computed form of `v`.
pub open spec fn planned_is(p: PlannedSection, v: PlannedView) -> bool {
    &&& p.shndx == v.shndx
    &&& step_result_is(StepResult::Load(p.info), Step::Load(v.load))
    &&& p.mapped_pages_offset == v.mapped_pages_offset
    &&& p.tls_offset == v.tls_offset
}

/// The state carried from section to section: the next free offsets of the
/// read-only and read-write groups, the TLS area's dynamic offsets and its
/// section list, and the sections placed so far.
pub struct PlanState {
    pub ro: int,
    pub rw: int,
    pub pts: Map<usize, usize>,
    pub recs: Seq<TlsSectionRecord>,
    pub planned: Seq<PlannedView>,
}

/// Where loading ends: the placed sections, or the message of the failure.
pub enum PlanOutcome {
    Done(PlanState),
    Failed(Seq<char>),
}

/// The first TLS offset after the self pointer's slot where `size` bytes
/// aligned to `align` fit, where one does and it is a canonical address.
pub open spec fn first_tls_slot(pts: Map<usize, usize>, size: int, align: int) -> Option<usize> {
    if exists|x: int|
        dynamic_slot_fits(pts, x, size, align) && forall|y: int|
            y < x ==> !#[trigger] dynamic_slot_fits(pts, y, size, align) {
        let x = (choose|x: int|
            dynamic_slot_fits(pts, x, size, align) && forall|y: int|
                y < x ==> !#[trigger] dynamic_slot_fits(pts, y, size, align)) as usize;
        if is_canonical(x) {
            Some(x)
        } else {
            None
        }
    } else {
        None
    }
}

/// The state after placing the loaded section `l` of section `shndx`.
pub open spec fn place(st: PlanState, shndx: usize, l: StepLoad) -> PlanOutcome {
    let addend = align_up(l.size as int, l.align as int);
    match l.pages {
        PagesKind::Text => PlanOutcome::Done(
            PlanState {
                planned: st.planned.push(
                    PlannedView { shndx, load: l, mapped_pages_offset: l.text_offset, tls_offset: None },
                ),
                ..st
            },
        ),
        PagesKind::ReadWrite => PlanOutcome::Done(
            PlanState {
                rw: st.rw + addend,
                planned: st.planned.push(
                    PlannedView { shndx, load: l, mapped_pages_offset: st.rw as u64, tls_offset: None },
                ),
                ..st
            },
        ),
        PagesKind::ReadOnly => if l.typ == SectionType::TlsData || l.typ == SectionType::TlsBss {
            match first_tls_slot(st.pts, l.size as int, l.align as int) {
                None => PlanOutcome::Failed("Failed to add new TLS section"@),
                Some(start) => PlanOutcome::Done(
                    PlanState {
                        ro: st.ro + addend,
                        pts: points_after_insert(st.pts, start, (start + l.size) as usize, st.recs.len() as usize),
                        recs: st.recs.push(
                            TlsSectionRecord {
                                typ: l.typ,
                                size: l.size as usize,
                                offset: start,
                                is_static: false,
                                virt_addr: start,
                            },
                        ),
                        planned: st.planned.push(
                            PlannedView {
                                shndx,
                                load: l,
                                mapped_pages_offset: if l.typ == SectionType::TlsBss {
                                    u64::MAX
                                } else {
                                    st.ro as u64
                                },
                                tls_offset: Some(start),
                            },
                        ),
                        ..st
                    },
                ),
            }
        } else {
            PlanOutcome::Done(
                PlanState {
                    ro: st.ro + addend,
                    planned: st.planned.push(
                        PlannedView { shndx, load: l, mapped_pages_offset: st.ro as u64, tls_offset: None },
                    ),
                    ..st
                },
            )
        },
    }
}

/// Loads the sections `inps[i..]` from state `st`, one after the other,
/// stopping at the first failure.
pub open spec fn separate_plan(
    inps: Seq<SectionInput>,
    globals: Set<usize>,
    have_text: bool,
    have_ro: bool,
    have_rw: bool,
    i: int,
    st: PlanState,
) -> PlanOutcome
    decreases inps.len() - i,
{
    if i < 0 || i >= inps.len() {
        PlanOutcome::Done(st)
    } else {
        match separate_step(inps[i], globals, have_text, have_ro, have_rw) {
            Step::Skip => separate_plan(inps, globals, have_text, have_ro, have_rw, i + 1, st),
            Step::Fail(m) => PlanOutcome::Failed(m),
            Step::Load(l) => match place(st, inps[i].shndx, l) {
                PlanOutcome::Failed(m) => PlanOutcome::Failed(m),
                PlanOutcome::Done(st2) => separate_plan(inps, globals, have_text, have_ro, have_rw, i + 1, st2),
            },
        }
    }
}

/// The part of its group that a loaded section takes: its size rounded up to
/// its alignment, for the read-only and read-write groups; nothing otherwise.
pub open spec fn group_addend(step: Step, pages: PagesKind) -> int {
    match step {
        Step::Load(l) => if l.pages == pages {
            align_up(l.size as int, l.align as int)
        } else {
            0
        },
        _ => 0,
    }
}

/// The total of `group_addend` over `inps[i..]`.
pub open spec fn group_total(
    inps: Seq<SectionInput>,
    globals: Set<usize>,
    have_text: bool,
    have_ro: bool,
    have_rw: bool,
    pages: PagesKind,
    i: int,
) -> int
    decreases inps.len() - i,
{
    if i < 0 || i >= inps.len() {
        0
    } else {
        group_addend(separate_step(inps[i], globals, have_text, have_ro, have_rw), pages) + group_total(
            inps,
            globals,
            have_text,
            have_ro,
            have_rw,
            pages,
            i + 1,
        )
    }
}

/// The conditions under which loading the sections does not panic: each
/// section placed in the read-only or read-write group has a nonzero
/// alignment, each TLS section a nonzero size, and both groups' offsets stay
/// within `u64`.
pub open spec fn separate_plan_fits(
    inps: Seq<SectionInput>,
    globals: Set<usize>,
    have_text: bool,
    have_ro: bool,
    have_rw: bool,
    ro: int,
    rw: int,
) -> bool {
    &&& forall|i: int|
        0 <= i < inps.len() ==> match #[trigger] separate_step(inps[i], globals, have_text, have_ro, have_rw) {
            Step::Load(l) => (l.pages != PagesKind::Text ==> l.align > 0) && ((l.typ == SectionType::TlsData
                || l.typ == SectionType::TlsBss) ==> (0 < l.size <= usize::MAX && l.align <= usize::MAX)),
            _ => true,
        }
    &&& ro + group_total(inps, globals, have_text, have_ro, have_rw, PagesKind::ReadOnly, 0) <= u64::MAX
    &&& rw + group_total(inps, globals, have_text, have_ro, have_rw, PagesKind::ReadWrite, 0) <= u64::MAX
}


/// Rounds `x` up to a multiple of `align`, as `u64::next_multiple_of` does.
pub fn next_multiple_of(x: u64, align: u64) -> (r: u64)
    requires
        align > 0,
        align_up(x as int, align as int) <= u64::MAX,
    ensures
        r == align_up(x as int, align as int),
{
    let rem = x % align;
    if rem == 0 {
        x
    } else {
        x + (align - rem)
    }
}

/// The specification value of a computed load description.
pub open spec fn load_view(info: LoadInfo) -> StepLoad {
    StepLoad {
        typ: info.typ,
        name: info.name@,
        pages: info.pages,
        global: info.global,
        source: info.source,
        size: info.size,
        align: info.align,
        text_offset: info.text_offset,
    }
}

/// The state before any section is loaded into a crate's pages, given the TLS area.
pub open spec fn initial_state(tls: TlsInitializer) -> PlanState {
    PlanState {
        ro: 0,
        rw: 0,
        pts: tls.dynamic_points(),
        recs: tls.records(),
        planned: Seq::empty(),
    }
}

/// The computed placed sections are the placed sections of `st`.
pub open spec fn plan_is(v: Seq<PlannedSection>, planned: Seq<PlannedView>) -> bool {
    &&& v.len() == planned.len()
    &&& forall|j: int| 0 <= j < v.len() ==> #[trigger] planned_is(v[j], planned[j])
}

/// The TLS area, the group offsets and the placed sections are those of `st`.
pub open spec fn state_is(st: PlanState, ro: u64, rw: u64, tls: TlsInitializer, planned: Seq<PlannedSection>) -> bool {
    &&& st.ro == ro
    &&& st.rw == rw
    &&& tls.wf()
    &&& tls.dynamic_points() == st.pts
    &&& tls.records() == st.recs
    &&& plan_is(planned, st.planned)
}

/// Appending a placed section to both sides keeps them matched.
proof fn lemma_plan_push(v: Seq<PlannedSection>, planned: Seq<PlannedView>, p: PlannedSection, pv: PlannedView)
    requires
        plan_is(v, planned),
        planned_is(p, pv),
    ensures
        plan_is(v.push(p), planned.push(pv)),
{
    assert forall|j: int| 0 <= j < v.push(p).len() implies #[trigger] planned_is(v.push(p)[j], planned.push(pv)[j]) by {
        if j < v.len() {
            assert(planned_is(v[j], planned[j]));
        }
    }
}

/// Places a section outside the TLS area: see `place`.
fn place_plain(
    shndx: usize,
    info: LoadInfo,
    ro: u64,
    rw: u64,
    planned: &mut Vec<PlannedSection>,
    Ghost(st): Ghost<PlanState>,
) -> (r: (u64, u64))
    requires
        st.ro == ro,
        st.rw == rw,
        plan_is(old(planned)@, st.planned),
        info.typ != SectionType::TlsData && info.typ != SectionType::TlsBss,
        info.pages != PagesKind::Text ==> info.align > 0,
        info.pages == PagesKind::ReadOnly ==> ro + align_up(info.size as int, info.align as int) <= u64::MAX,
        info.pages == PagesKind::ReadWrite ==> rw + align_up(info.size as int, info.align as int) <= u64::MAX,
    ensures
        place(st, shndx, load_view(info)) matches PlanOutcome::Done(st2) && st2.ro == r.0 && st2.rw == r.1
            && st2.pts == st.pts && st2.recs == st.recs && plan_is(final(planned)@, st2.planned),
{
    let ghost l = load_view(info);
    let pages = info.pages;
    if pages == PagesKind::Text {
        let offset = info.text_offset;
        let p = PlannedSection { shndx, info, mapped_pages_offset: offset, tls_offset: None };
        proof {
            lemma_plan_push(planned@, st.planned, p, PlannedView { shndx, load: l, mapped_pages_offset: l.text_offset, tls_offset: None });
        }
        planned.push(p);
        (ro, rw)
    } else {
        proof {
            lemma_align_up(info.size as int, info.align as int);
        }
        let addend = next_multiple_of(info.size, info.align);
        let offset = if pages == PagesKind::ReadWrite {
            rw
        } else {
            ro
        };
        let p = PlannedSection { shndx, info, mapped_pages_offset: offset, tls_offset: None };
        proof {
            lemma_plan_push(planned@, st.planned, p, PlannedView { shndx, load: l, mapped_pages_offset: offset, tls_offset: None });
        }
        planned.push(p);
        if pages == PagesKind::ReadWrite {
            (ro, rw + addend)
        } else {
            (ro + addend, rw)
        }
    }
}

/// Places a TLS section in the read-only pages and in the TLS area: see `place`.
#[verifier::spinoff_prover]
#[verifier::rlimit(40)]
fn place_tls(
    shndx: usize,
    info: LoadInfo,
    ro: u64,
    tls: &mut TlsInitializer,
    planned: &mut Vec<PlannedSection>,
    Ghost(st): Ghost<PlanState>,
) -> (r: Result<u64, &'static str>)
    requires
        st.ro == ro,
        old(tls).wf(),
        old(tls).dynamic_points() == st.pts,
        old(tls).records() == st.recs,
        plan_is(old(planned)@, st.planned),
        info.typ == SectionType::TlsData || info.typ == SectionType::TlsBss,
        info.pages == PagesKind::ReadOnly,
        info.align > 0,
        0 < info.size <= usize::MAX,
        info.align <= usize::MAX,
        ro + align_up(info.size as int, info.align as int) <= u64::MAX,
        old(tls).records().len() + 1 < usize::MAX,
    ensures
        final(tls).wf(),
        final(tls).records().len() <= old(tls).records().len() + 1,
        match place(st, shndx, load_view(info)) {
            PlanOutcome::Done(st2) => r matches Ok(ro2) && st2.ro == ro2 && st2.rw == st.rw
                && final(tls).dynamic_points() == st2.pts && final(tls).records() == st2.recs && plan_is(
                final(planned)@,
                st2.planned,
            ),
            PlanOutcome::Failed(m) => r matches Err(e) && e@ == m,
        },
{
    let ghost l = load_view(info);
    proof {
        lemma_align_up(info.size as int, info.align as int);
    }
    let addend = next_multiple_of(info.size, info.align);
    let ghost pts0 = tls.dynamic_points();
    let is_bss = info.typ == SectionType::TlsBss;
    match tls.add_new_dynamic_tls_section(info.typ, info.size as usize, info.align as usize) {
        Err(_) => {
            proof {
                assert(first_tls_slot(pts0, l.size as int, l.align as int) is None);
            }
            Err("Failed to add new TLS section")
        },
        Ok((start, _id)) => {
            proof {
                let c = choose|x: int|
                    dynamic_slot_fits(pts0, x, l.size as int, l.align as int) && forall|y: int|
                        y < x ==> !#[trigger] dynamic_slot_fits(pts0, y, l.size as int, l.align as int);
                assert(c == start as int) by {
                    if c < start {
                    } else if c > start {
                    }
                }
                assert(first_tls_slot(pts0, l.size as int, l.align as int) == Some(start));
            }
            let offset = if is_bss {
                u64::MAX
            } else {
                ro
            };
            let p = PlannedSection { shndx, info, mapped_pages_offset: offset, tls_offset: Some(start) };
            proof {
                lemma_plan_push(planned@, st.planned, p, PlannedView { shndx, load: l, mapped_pages_offset: offset, tls_offset: Some(start) });
            }
            planned.push(p);
            Ok(ro + addend)
        },
    }
}


/// The totals of the group addends are never negative where every section
/// placed in a page group other than the text pages has a nonzero alignment.
proof fn lemma_group_total_nonneg(
    inps: Seq<SectionInput>,
    globals: Set<usize>,
    have_text: bool,
    have_ro: bool,
    have_rw: bool,
    pages: PagesKind,
    i: int,
)
    requires
        pages != PagesKind::Text,
        separate_plan_fits(inps, globals, have_text, have_ro, have_rw, 0, 0),
    ensures
        group_total(inps, globals, have_text, have_ro, have_rw, pages, i) >= 0,
    decreases inps.len() - i,
{
    if 0 <= i < inps.len() {
        lemma_group_total_nonneg(inps, globals, have_text, have_ro, have_rw, pages, i + 1);
        let s = separate_step(inps[i], globals, have_text, have_ro, have_rw);
        if let Step::Load(l) = s {
            if l.pages == pages {
                lemma_align_up(l.size as int, l.align as int);
            }
        }
    }
}

/// Places the allocated sections `inps` (in the order of their indices) of an
/// object file whose sections have not been merged into the crate's page
/// groups: executable sections at their file offset in the text pages,
/// read-only and read-write sections one after the other, each taking its
/// size rounded up to its alignment, and TLS sections also in the TLS area.
/// `globals` holds the indices of the globally visible sections and `have_*`
/// tell which page groups were allocated. Stops at the first section that
/// cannot be loaded and returns its message.
pub fn plan_separate_sections(
    inps: &Vec<SectionInput>,
    globals: &Vec<usize>,
    have_text: bool,
    have_ro: bool,
    have_rw: bool,
    tls: &mut TlsInitializer,
) -> (r: Result<Vec<PlannedSection>, &'static str>)
    requires
        old(tls).wf(),
        separate_plan_fits(inps@, globals@.to_set(), have_text, have_ro, have_rw, 0, 0),
        old(tls).records().len() + inps.len() + 1 < usize::MAX,
    ensures
        final(tls).wf(),
        match separate_plan(inps@, globals@.to_set(), have_text, have_ro, have_rw, 0, initial_state(*old(tls))) {
            PlanOutcome::Done(st) => r matches Ok(v) && plan_is(v@, st.planned) && final(tls).dynamic_points()
                == st.pts && final(tls).records() == st.recs,
            PlanOutcome::Failed(m) => r matches Err(e) && e@ == m,
        },
{
    let ghost g = globals@.to_set();
    let ghost init = initial_state(*tls);
    let mut planned: Vec<PlannedSection> = Vec::new();
    let mut ro: u64 = 0;
    let mut rw: u64 = 0;
    let ghost mut st = init;
    let mut i: usize = 0;
    while i < inps.len()
        invariant
            i <= inps.len(),
            g == globals@.to_set(),
            init == initial_state(*old(tls)),
            separate_plan_fits(inps@, g, have_text, have_ro, have_rw, 0, 0),
            separate_plan(inps@, g, have_text, have_ro, have_rw, 0, init) == separate_plan(
                inps@,
                g,
                have_text,
                have_ro,
                have_rw,
                i as int,
                st,
            ),
            st.ro == ro,
            st.rw == rw,
            ro + group_total(inps@, g, have_text, have_ro, have_rw, PagesKind::ReadOnly, i as int) <= u64::MAX,
            rw + group_total(inps@, g, have_text, have_ro, have_rw, PagesKind::ReadWrite, i as int) <= u64::MAX,
            tls.wf(),
            tls.dynamic_points() == st.pts,
            tls.records() == st.recs,
            tls.records().len() + (inps.len() - i) + 1 < usize::MAX,
            plan_is(planned@, st.planned),
        decreases inps.len() - i,
    {
        let ghost s = separate_step(inps@[i as int], g, have_text, have_ro, have_rw);
        proof {
            lemma_group_total_nonneg(inps@, g, have_text, have_ro, have_rw, PagesKind::ReadOnly, i + 1);
            lemma_group_total_nonneg(inps@, g, have_text, have_ro, have_rw, PagesKind::ReadWrite, i + 1);
            assert(s == #[trigger] separate_step(inps@[i as int], g, have_text, have_ro, have_rw));
        }
        let step = separate_section_step(&inps[i], globals, have_text, have_ro, have_rw);
        let shndx = inps[i].shndx;
        match step {
            StepResult::Skip => {},
            StepResult::Fail(m) => {
                proof {
                    assert(separate_plan(inps@, g, have_text, have_ro, have_rw, i as int, st) == PlanOutcome::Failed(m@));
                }
                return Err(m);
            },
            StepResult::Load(info) => {
                proof {
                    assert(s == Step::Load(load_view(info)));
                }
                if info.typ == SectionType::TlsData || info.typ == SectionType::TlsBss {
                    match place_tls(shndx, info, ro, tls, &mut planned, Ghost(st)) {
                        Err(m) => {
                            proof {
                                assert(separate_plan(inps@, g, have_text, have_ro, have_rw, i as int, st)
                                    == PlanOutcome::Failed(m@));
                            }
                            return Err(m);
                        },
                        Ok(ro2) => {
                            proof {
                                st = place(st, shndx, s->Load_0)->Done_0;
                            }
                            ro = ro2;
                        },
                    }
                } else {
                    let (ro2, rw2) = place_plain(shndx, info, ro, rw, &mut planned, Ghost(st));
                    proof {
                        st = place(st, shndx, s->Load_0)->Done_0;
                    }
                    ro = ro2;
                    rw = rw2;
                }
            },
        }
        i = i + 1;
    }
    Ok(planned)
}


/// The indices of the allocated sections among `sections`, in order.
pub open spec fn alloc_indices(sections: Seq<ElfSection>) -> Seq<usize>
    decreases sections.len(),
{
    if sections.len() == 0 {
        Seq::empty()
    } else {
        let prev = alloc_indices(sections.drop_last());
        if sections.last().flags & SHF_ALLOC != 0 {
            prev.push((sections.len() - 1) as usize)
        } else {
            prev
        }
    }
}

/// `inp` is what the file `input` tells of its section `shndx`, whose header is `header`.
pub open spec fn input_read_from(input: Seq<u8>, inp: SectionInput, shndx: usize, header: ElfSection) -> bool {
    &&& inp.shndx == shndx
    &&& inp.header == header
    &&& input_name(inp) == elf_section_name(input, shndx as u16)
    &&& if header.size == 0 && shndx + 1 < SHN_LORESERVE {
        match elf_section_fields(input, (shndx + 1) as u16) {
            None => inp.next is None,
            Some(f) => inp.next matches Some(n) && section_fields(n) == f,
        }
    } else {
        inp.next is None
    }
}

/// Reads, for each allocated section among `sections` (the iterated section
/// headers of `input`), its name and, if it has size zero, the header of the
/// section after it.
pub fn gather_section_inputs(input: &[u8], sections: &Vec<ElfSection>) -> (r: Vec<SectionInput>)
    requires
        elf_readable(input@),
        sections.len() <= SHN_LORESERVE,
    ensures
        r.len() == alloc_indices(sections@).len(),
        forall|j: int|
            0 <= j < r.len() ==> #[trigger] input_read_from(
                input@,
                r@[j],
                alloc_indices(sections@)[j],
                sections@[alloc_indices(sections@)[j] as int],
            ),
{
    let mut r: Vec<SectionInput> = Vec::new();
    let mut i: usize = 0;
    while i < sections.len()
        invariant
            elf_readable(input@),
            sections.len() <= SHN_LORESERVE,
            i <= sections.len(),
            r.len() == alloc_indices(sections@.subrange(0, i as int)).len(),
            forall|j: int| 0 <= j < r.len() ==> (#[trigger] alloc_indices(sections@.subrange(0, i as int))[j]) < i,
            forall|j: int|
                0 <= j < r.len() ==> #[trigger] input_read_from(
                    input@,
                    r@[j],
                    alloc_indices(sections@.subrange(0, i as int))[j],
                    sections@[alloc_indices(sections@.subrange(0, i as int))[j] as int],
                ),
        decreases sections.len() - i,
    {
        let ghost prefix = sections@.subrange(0, i as int);
        let ghost next_prefix = sections@.subrange(0, i + 1);
        proof {
            assert(next_prefix.drop_last() =~= prefix);
        }
        let header = sections[i];
        if header.flags & SHF_ALLOC != 0 {
            let idx = i as u16;
            let name = section_name(input, idx);
            let next = if header.size == 0 && i + 1 < SHN_LORESERVE as usize {
                section_header(input, idx + 1)
            } else {
                None
            };
            r.push(SectionInput { shndx: i, header, name, next });
            proof {
                assert(alloc_indices(next_prefix) == alloc_indices(prefix).push(i));
                assert forall|j: int|
                    0 <= j < r.len() implies #[trigger] input_read_from(
                        input@,
                        r@[j],
                        alloc_indices(next_prefix)[j],
                        sections@[alloc_indices(next_prefix)[j] as int],
                    ) by {
                    if j < r.len() - 1 {
                        assert(alloc_indices(next_prefix)[j] == alloc_indices(prefix)[j]);
                    }
                }
            }
        } else {
            proof {
                assert(alloc_indices(next_prefix) == alloc_indices(prefix));
            }
        }
        i = i + 1;
    }
    proof {
        assert(sections@.subrange(0, i as int) =~= sections@);
    }
    r
}


/// The header that stands for a section when the page groups are sized: as in
/// `effective_header`, except that the empty `.text` section at the start of
/// each object file stands for itself.
pub open spec fn sizing_header(inp: SectionInput) -> ElfSection {
    if inp.header.size == 0 && input_name(inp) != Some(".text"@) {
        effective_header(inp.header, inp.next)
    } else {
        inp.header
    }
}

/// Whether sizing stops at this section because the section after a
/// zero-sized one could not be read.
pub open spec fn sizing_fails(inp: SectionInput) -> bool {
    inp.header.size == 0 && input_name(inp) != Some(".text"@) && inp.next is None
}

/// The sizes of the three page groups: the end of the last executable section
/// in the file, and the totals of the read-only and read-write sections, each
/// rounded up to its alignment (`.tbss` sections take no space).
pub enum SizesOutcome {
    Done(int, int, int),
    Failed(Seq<char>),
}

/// Sizes the page groups for the allocated sections `inps[i..]`, from the
/// sizes found so far.
pub open spec fn sizes_fold(inps: Seq<SectionInput>, i: int, text_end: int, ro: int, rw: int) -> SizesOutcome
    decreases inps.len() - i,
{
    if i < 0 || i >= inps.len() {
        SizesOutcome::Done(text_end, ro, rw)
    } else if sizing_fails(inps[i]) {
        SizesOutcome::Failed("couldn't get next section for a zero-sized section"@)
    } else {
        let eff = sizing_header(inps[i]);
        let addend = align_up(eff.size as int, eff.align as int);
        let flags = inps[i].header.flags;
        if flags & SHF_EXECINSTR == SHF_EXECINSTR {
            sizes_fold(inps, i + 1, vstd::math::max(text_end, eff.offset + addend), ro, rw)
        } else if flags & SHF_TLS == SHF_TLS {
            if eff.kind == SectionKind::ProgBits {
                sizes_fold(inps, i + 1, text_end, ro + addend, rw)
            } else {
                sizes_fold(inps, i + 1, text_end, ro, rw)
            }
        } else if flags & SHF_WRITE == SHF_WRITE {
            sizes_fold(inps, i + 1, text_end, ro, rw + addend)
        } else {
            sizes_fold(inps, i + 1, text_end, ro + addend, rw)
        }
    }
}

/// What a section adds to the read-only (`which == 1`) or read-write
/// (`which == 2`) group when the groups are sized.
pub open spec fn sizing_addend(inp: SectionInput, which: int) -> int {
    let eff = sizing_header(inp);
    let addend = align_up(eff.size as int, eff.align as int);
    let flags = inp.header.flags;
    if sizing_fails(inp) || flags & SHF_EXECINSTR == SHF_EXECINSTR {
        0
    } else if flags & SHF_TLS == SHF_TLS {
        if which == 1 && eff.kind == SectionKind::ProgBits {
            addend
        } else {
            0
        }
    } else if flags & SHF_WRITE == SHF_WRITE {
        if which == 2 {
            addend
        } else {
            0
        }
    } else if which == 1 {
        addend
    } else {
        0
    }
}

/// The total of `sizing_addend` over `inps[i..]`.
pub open spec fn sizing_total(inps: Seq<SectionInput>, which: int, i: int) -> int
    decreases inps.len() - i,
{
    if i < 0 || i >= inps.len() {
        0
    } else {
        sizing_addend(inps[i], which) + sizing_total(inps, which, i + 1)
    }
}

/// The conditions under which sizing does not panic: every section that is
/// sized has a nonzero alignment, no executable section ends beyond `u64`,
/// and the read-only and read-write totals fit in `u64`.
pub open spec fn sizes_fit(inps: Seq<SectionInput>) -> bool {
    &&& forall|i: int|
        0 <= i < inps.len() && !sizing_fails(#[trigger] inps[i]) ==> {
            &&& sizing_header(inps[i]).align > 0
            &&& align_up(sizing_header(inps[i]).size as int, sizing_header(inps[i]).align as int) <= u64::MAX
            &&& (inps[i].header.flags & SHF_EXECINSTR == SHF_EXECINSTR ==> sizing_header(inps[i]).offset
                + align_up(sizing_header(inps[i]).size as int, sizing_header(inps[i]).align as int) <= u64::MAX)
        }
    &&& sizing_total(inps, 1, 0) <= u64::MAX
    &&& sizing_total(inps, 2, 0) <= u64::MAX
}

/// The totals of the sizing addends are never negative where all alignments are nonzero.
proof fn lemma_sizing_total_nonneg(inps: Seq<SectionInput>, which: int, i: int)
    requires
        sizes_fit(inps),
    ensures
        sizing_total(inps, which, i) >= 0,
    decreases inps.len() - i,
{
    if 0 <= i < inps.len() {
        lemma_sizing_total_nonneg(inps, which, i + 1);
        if !sizing_fails(inps[i]) {
            let eff = sizing_header(inps[i]);
            lemma_align_up(eff.size as int, eff.align as int);
        }
    }
}

/// Computes the sizes in bytes of the executable, read-only and read-write
/// page groups that the allocated sections `inps` need.
pub fn section_sizes(inps: &Vec<SectionInput>) -> (r: Result<(u64, u64, u64), &'static str>)
    requires
        sizes_fit(inps@),
    ensures
        match sizes_fold(inps@, 0, 0, 0, 0) {
            SizesOutcome::Done(t, o, w) => r matches Ok((a, b, c)) && a == t && b == o && c == w,
            SizesOutcome::Failed(m) => r matches Err(e) && e@ == m,
        },
{
    let mut text_end: u64 = 0;
    let mut ro: u64 = 0;
    let mut rw: u64 = 0;
    let mut i: usize = 0;
    while i < inps.len()
        invariant
            i <= inps.len(),
            sizes_fit(inps@),
            sizes_fold(inps@, 0, 0, 0, 0) == sizes_fold(inps@, i as int, text_end as int, ro as int, rw as int),
            ro + sizing_total(inps@, 1, i as int) <= u64::MAX,
            rw + sizing_total(inps@, 2, i as int) <= u64::MAX,
        decreases inps.len() - i,
    {
        let inp = &inps[i];
        proof {
            lemma_sizing_total_nonneg(inps@, 1, i + 1);
            lemma_sizing_total_nonneg(inps@, 2, i + 1);
            assert(sizing_addend(inps@[i as int], 1) == sizing_addend(*inp, 1));
        }
        let is_text_name = match &inp.name {
            Some(n) => str_eq(n.as_str(), ".text"),
            None => false,
        };
        let eff = if inp.header.size == 0 && !is_text_name {
            match inp.next {
                None => {
                    return Err("couldn't get next section for a zero-sized section");
                },
                Some(next) => if next.offset == inp.header.offset {
                    next
                } else {
                    inp.header
                },
            }
        } else {
            inp.header
        };
        assert(eff == sizing_header(inps@[i as int]));
        proof {
            lemma_align_up(eff.size as int, eff.align as int);
            assert(!sizing_fails(inps@[i as int]));
        }
        let addend = next_multiple_of(eff.size, eff.align);
        let flags = inp.header.flags;
        if flags & SHF_EXECINSTR == SHF_EXECINSTR {
            let end = eff.offset + addend;
            if end > text_end {
                text_end = end;
            }
        } else if flags & SHF_TLS == SHF_TLS {
            if eff.kind == SectionKind::ProgBits {
                ro = ro + addend;
            }
        } else if flags & SHF_WRITE == SHF_WRITE {
            rw = rw + addend;
        } else {
            ro = ro + addend;
        }
        i = i + 1;
    }
    Ok((text_end, ro, rw))
}


/// The condition of `sizes_fit` on one section.
pub open spec fn sizing_ok(inp: SectionInput) -> bool {
    !sizing_fails(inp) ==> {
        &&& sizing_header(inp).align > 0
        &&& align_up(sizing_header(inp).size as int, sizing_header(inp).align as int) <= u64::MAX
        &&& (inp.header.flags & SHF_EXECINSTR == SHF_EXECINSTR ==> sizing_header(inp).offset + align_up(
            sizing_header(inp).size as int,
            sizing_header(inp).align as int,
        ) <= u64::MAX)
    }
}

/// Returns whether sizing the page groups for `inps` does not panic (`sizes_fit`).
pub fn check_sizes_fit(inps: &Vec<SectionInput>) -> (r: bool)
    requires
        inps.len() <= SHN_LORESERVE,
    ensures
        r == sizes_fit(inps@),
{
    let mut ok = true;
    let mut ro: u128 = 0;
    let mut rw: u128 = 0;
    let mut i: usize = 0;
    while i < inps.len()
        invariant
            inps.len() <= SHN_LORESERVE,
            i <= inps.len(),
            ok ==> forall|j: int| 0 <= j < i ==> sizing_ok(#[trigger] inps@[j]),
            ok ==> ro + sizing_total(inps@, 1, i as int) == sizing_total(inps@, 1, 0),
            ok ==> rw + sizing_total(inps@, 2, i as int) == sizing_total(inps@, 2, 0),
            ro <= i * 0x1_0000_0000_0000_0000,
            rw <= i * 0x1_0000_0000_0000_0000,
            !ok ==> exists|j: int| 0 <= j < inps.len() && !sizing_ok(#[trigger] inps@[j]),
        decreases inps.len() - i,
    {
        let inp = &inps[i];
        let is_text_name = match &inp.name {
            Some(n) => str_eq(n.as_str(), ".text"),
            None => false,
        };
        let fails = inp.header.size == 0 && !is_text_name && inp.next.is_none();
        if !fails {
            let eff = if inp.header.size == 0 && !is_text_name {
                let next = inp.next.unwrap();
                if next.offset == inp.header.offset {
                    next
                } else {
                    inp.header
                }
            } else {
                inp.header
            };
            assert(eff == sizing_header(inps@[i as int]));
            if eff.align == 0 {
                ok = false;
            } else {
                proof {
                    lemma_align_up(eff.size as int, eff.align as int);
                }
                let rem = eff.size % eff.align;
                let addend: u128 = if rem == 0 {
                    eff.size as u128
                } else {
                    eff.size as u128 + (eff.align - rem) as u128
                };
                assert(addend == align_up(eff.size as int, eff.align as int));
                if addend > u64::MAX as u128 {
                    ok = false;
                } else {
                    let flags = inp.header.flags;
                    if flags & SHF_EXECINSTR == SHF_EXECINSTR {
                        if eff.offset as u128 + addend > u64::MAX as u128 {
                            ok = false;
                        }
                    } else if flags & SHF_TLS == SHF_TLS {
                        if eff.kind == SectionKind::ProgBits {
                            ro = ro + addend;
                        }
                    } else if flags & SHF_WRITE == SHF_WRITE {
                        rw = rw + addend;
                    } else {
                        ro = ro + addend;
                    }
                }
            }
        }
        proof {
            assert(ro <= (i + 1) * 0x1_0000_0000_0000_0000) by (nonlinear_arith)
                requires ro <= i * 0x1_0000_0000_0000_0000 + 0x1_0000_0000_0000_0000;
            assert(rw <= (i + 1) * 0x1_0000_0000_0000_0000) by (nonlinear_arith)
                requires rw <= i * 0x1_0000_0000_0000_0000 + 0x1_0000_0000_0000_0000;
        }
        i = i + 1;
    }
    proof {
        if ok {
            assert(forall|j: int| 0 <= j < inps.len() ==> sizing_ok(#[trigger] inps@[j]));
        }
    }
    ok && ro <= u64::MAX as u128 && rw <= u64::MAX as u128
}


/// The condition of `separate_plan_fits` on one section's outcome.
pub open spec fn step_fits(step: Step) -> bool {
    match step {
        Step::Load(l) => (l.pages != PagesKind::Text ==> l.align > 0) && ((l.typ == SectionType::TlsData
            || l.typ == SectionType::TlsBss) ==> (0 < l.size <= usize::MAX && l.align <= usize::MAX)),
        _ => true,
    }
}

/// Returns whether placing the sections `inps` does not panic (`separate_plan_fits` from offsets 0).
pub fn check_separate_plan_fits(
    inps: &Vec<SectionInput>,
    globals: &Vec<usize>,
    have_text: bool,
    have_ro: bool,
    have_rw: bool,
) -> (r: bool)
    requires
        inps.len() <= SHN_LORESERVE,
    ensures
        r == separate_plan_fits(inps@, globals@.to_set(), have_text, have_ro, have_rw, 0, 0),
{
    let ghost g = globals@.to_set();
    let mut ok = true;
    let mut ro: u128 = 0;
    let mut rw: u128 = 0;
    let mut i: usize = 0;
    while i < inps.len()
        invariant
            inps.len() <= SHN_LORESERVE,
            g == globals@.to_set(),
            i <= inps.len(),
            ok ==> forall|j: int| 0 <= j < i ==> step_fits(#[trigger] separate_step(inps@[j], g, have_text, have_ro, have_rw)),
            ok ==> ro + group_total(inps@, g, have_text, have_ro, have_rw, PagesKind::ReadOnly, i as int) == group_total(
                inps@,
                g,
                have_text,
                have_ro,
                have_rw,
                PagesKind::ReadOnly,
                0,
            ),
            ok ==> rw + group_total(inps@, g, have_text, have_ro, have_rw, PagesKind::ReadWrite, i as int) == group_total(
                inps@,
                g,
                have_text,
                have_ro,
                have_rw,
                PagesKind::ReadWrite,
                0,
            ),
            ro <= i * 0x4_0000_0000_0000_0000,
            rw <= i * 0x4_0000_0000_0000_0000,
            !ok ==> exists|j: int|
                0 <= j < inps.len() && !step_fits(#[trigger] separate_step(inps@[j], g, have_text, have_ro, have_rw)),
        decreases inps.len() - i,
    {
        let ghost s = separate_step(inps@[i as int], g, have_text, have_ro, have_rw);
        let step = separate_section_step(&inps[i], globals, have_text, have_ro, have_rw);
        if let StepResult::Load(info) = step {
            let tls = info.typ == SectionType::TlsData || info.typ == SectionType::TlsBss;
            if (info.pages != PagesKind::Text && info.align == 0) || (tls && (info.size == 0 || info.size as u128
                > usize::MAX as u128 || info.align as u128 > usize::MAX as u128)) {
                ok = false;
            } else if info.pages != PagesKind::Text {
                proof {
                    lemma_align_up(info.size as int, info.align as int);
                }
                let rem = info.size % info.align;
                let addend: u128 = if rem == 0 {
                    info.size as u128
                } else {
                    info.size as u128 + (info.align - rem) as u128
                };
                assert(addend == align_up(info.size as int, info.align as int));
                if info.pages == PagesKind::ReadOnly {
                    ro = ro + addend;
                } else {
                    rw = rw + addend;
                }
            }
        }
        proof {
            assert(ro <= (i + 1) * 0x4_0000_0000_0000_0000) by (nonlinear_arith)
                requires ro <= i * 0x4_0000_0000_0000_0000 + 0x4_0000_0000_0000_0000;
            assert(rw <= (i + 1) * 0x4_0000_0000_0000_0000) by (nonlinear_arith)
                requires rw <= i * 0x4_0000_0000_0000_0000 + 0x4_0000_0000_0000_0000;
        }
        i = i + 1;
    }
    ok && ro <= u64::MAX as u128 && rw <= u64::MAX as u128
}


/// What loading a crate needs to know of its object file before the crate's
/// pages are allocated: its section headers, its allocated sections, whether
/// its sections have been merged, and the sizes of the three page groups.
pub struct CrateLayout {
    pub sections: Vec<ElfSection>,
    pub inputs: Vec<SectionInput>,
    pub merged: bool,
    pub text_bytes: u64,
    pub ro_bytes: u64,
    pub rw_bytes: u64,
}

/// Whether the sections of the object file `input` have been merged by the
/// partial relinking step: its section 1 is named `.theseus_merged`.
pub open spec fn sections_are_merged(input: Seq<u8>) -> bool {
    elf_section_name(input, 1) == Some(".theseus_merged"@)
}

/// `inputs` are the allocated sections of `sections`, read from `input`.
pub open spec fn inputs_of(input: Seq<u8>, sections: Seq<ElfSection>, inputs: Seq<SectionInput>) -> bool {
    &&& inputs.len() == alloc_indices(sections).len()
    &&& forall|j: int|
        0 <= j < inputs.len() ==> #[trigger] input_read_from(
            input,
            inputs[j],
            alloc_indices(sections)[j],
            sections[alloc_indices(sections)[j] as int],
        )
}

/// `sections` are the section headers that an iteration over `input` yields.
pub open spec fn sections_of(input: Seq<u8>, sections: Seq<ElfSection>) -> bool {
    &&& iterated_count(input, sections.len() as int)
    &&& forall|j: int| 0 <= j < sections.len() ==> elf_section_fields(input, j as u16) == Some(#[trigger] section_fields(sections[j]))
}

/// What `prepare_crate_load` returns for the object file `input`: the
/// error for a crate loaded already, the ELF parser's error, the error for
/// a file that is not relocatable, `None` where the sizes of its sections
/// do not fit, the sizing error, or the layout of its sections.
pub open spec fn prepared(input: Seq<u8>, already_loaded: bool, r: Option<Result<CrateLayout, &'static str>>) -> bool {
    &&& already_loaded ==> (r matches Some(Err(e)) && e@
        == "the crate has already been loaded, cannot load it again in the same namespace"@)
    &&& !already_loaded && elf_header_error(input) is Some ==> (r matches Some(Err(e)) && e@ == elf_header_error(
        input,
    )->0)
    &&& !already_loaded && elf_header_error(input) is None && elf_file_type(input) != Some(1u16) ==> (r matches Some(
        Err(e),
    ) && e@ == "not a relocatable elf file"@)
    &&& !already_loaded && elf_header_error(input) is None && elf_file_type(input) == Some(1u16) ==> match r {
        None => exists|secs: Seq<ElfSection>, inps: Seq<SectionInput>|
            sections_of(input, secs) && inputs_of(input, secs, inps) && !sizes_fit(inps),
        Some(Err(e)) => exists|secs: Seq<ElfSection>, inps: Seq<SectionInput>|
            sections_of(input, secs) && inputs_of(input, secs, inps) && sizes_fit(inps) && sizes_fold(inps, 0, 0, 0, 0)
                == SizesOutcome::Failed(e@),
        Some(Ok(l)) => sections_of(input, l.sections@) && inputs_of(input, l.sections@, l.inputs@)
            && l.merged == sections_are_merged(input) && sizes_fit(l.inputs@) && sizes_fold(l.inputs@, 0, 0, 0, 0)
            == SizesOutcome::Done(l.text_bytes as int, l.ro_bytes as int, l.rw_bytes as int),
    }
}

/// Checks that a crate's object file can be loaded and sizes its page groups:
/// the crate must not be loaded already, the file must be a relocatable ELF
/// file, and sizing must succeed. Returns `None` where sizing would panic on a
/// zero alignment or an offset beyond `u64`.
pub fn prepare_crate_load(input: &[u8], already_loaded: bool) -> (r: Option<Result<CrateLayout, &'static str>>)
    requires
        elf_readable(input@),
    ensures
        prepared(input@, already_loaded, r),
{
    if already_loaded {
        return Some(Err("the crate has already been loaded, cannot load it again in the same namespace"));
    }
    if let Some(e) = header_error(input) {
        return Some(Err(e));
    }
    match file_type(input) {
        Some(1) => {},
        _ => {
            return Some(Err("not a relocatable elf file"));
        },
    }
    let merged = match section_name(input, 1) {
        Some(n) => str_eq(n.as_str(), ".theseus_merged"),
        None => false,
    };
    let sections = read_section_headers(input);
    proof {
        assert(sections.len() <= SHN_LORESERVE) by {
            if sections.len() > SHN_LORESERVE {
                assert(crate::elf::iterated_section(input@, SHN_LORESERVE as int));
            }
        }
    }
    let inputs = gather_section_inputs(input, &sections);
    proof {
        assert(inputs.len() <= sections.len()) by {
            lemma_alloc_indices_len(sections@);
        }
    }
    proof {
        assert(sections_of(input@, sections@));
        assert(inputs_of(input@, sections@, inputs@));
    }
    if !check_sizes_fit(&inputs) {
        return None;
    }
    match section_sizes(&inputs) {
        Err(e) => Some(Err(e)),
        Ok((text_bytes, ro_bytes, rw_bytes)) => Some(
            Ok(CrateLayout { sections, inputs, merged, text_bytes, ro_bytes, rw_bytes }),
        ),
    }
}

/// There are never more allocated sections than sections, and each index is one of a section.
pub proof fn lemma_alloc_indices_len(sections: Seq<ElfSection>)
    ensures
        alloc_indices(sections).len() <= sections.len(),
        forall|j: int| 0 <= j < alloc_indices(sections).len() ==> #[trigger] alloc_indices(sections)[j] < sections.len(),
    decreases sections.len(),
{
    if sections.len() > 0 {
        lemma_alloc_indices_len(sections.drop_last());
    }
}


/// `entries` are the symbols of the symbol table in section `index` of `input`.
pub open spec fn symbols_of(input: Seq<u8>, index: u16, entries: Seq<SymbolEntry>) -> bool {
    &&& forall|j: int| 0 <= j < entries.len() ==> elf_symbol_entry(input, index, j) == Some(#[trigger] symbol_fields(entries[j]))
    &&& match elf_symbol_count(input, index) {
        None => entries.len() == 0,
        Some(n) => entries.len() == n || (entries.len() < n && elf_symbol_entry(input, index, entries.len() as int) is None),
    }
}

/// The indices of the sections that `entries` make globally visible.
pub open spec fn globals_of(entries: Seq<SymbolEntry>) -> Set<usize> {
    Set::new(|x: usize| exists|j: int| 0 <= j < entries.len() && (#[trigger] entries[j]).shndx == x && is_global_symbol(entries[j].info))
}

/// What `plan_separate_crate_sections` returns for the object file `input`
/// laid out as `layout`, with the TLS area `tls0` before and `tls1` after.
pub open spec fn separate_planned(
    input: Seq<u8>,
    layout: CrateLayout,
    tls0: TlsInitializer,
    tls1: TlsInitializer,
    r: Option<Result<(Vec<PlannedSection>, Vec<usize>), &'static str>>,
) -> bool {
    match first_symtab(layout.sections@) {
        Some(i) if elf_symbol_count(input, i as u16) is Some => {
            let have_text = layout.text_bytes > 0;
            let have_ro = layout.ro_bytes > 0;
            let have_rw = layout.rw_bytes > 0;
            exists|entries: Seq<SymbolEntry>|
                #![trigger globals_of(entries)]
                symbols_of(input, i as u16, entries) && {
                    let g = globals_of(entries);
                    if !separate_plan_fits(layout.inputs@, g, have_text, have_ro, have_rw, 0, 0) {
                        r is None && tls1 == tls0
                    } else {
                        match separate_plan(layout.inputs@, g, have_text, have_ro, have_rw, 0, initial_state(tls0)) {
                            PlanOutcome::Done(st) => r matches Some(Ok((v, gv))) && plan_is(v@, st.planned)
                                && gv@.to_set() == g && tls1.dynamic_points() == st.pts
                                && tls1.records() == st.recs,
                            PlanOutcome::Failed(m) => r matches Some(Err(e)) && e@ == m,
                        }
                    }
                }
        },
        _ => r matches Some(Err(e)) && e@ == "no symbol table found. Was file stripped?"@ && tls1 == tls0,
    }
}

/// Places the allocated sections of a crate's object file whose sections have
/// not been merged (see `plan_separate_sections`), after reading the global
/// sections from its symbol table; returns them with the indices of the global sections. Returns `None` where placing would panic
/// on a zero alignment, an empty TLS section or an offset beyond `u64`.
pub fn plan_separate_crate_sections(input: &[u8], layout: &CrateLayout, tls: &mut TlsInitializer) -> (r: Option<
    Result<(Vec<PlannedSection>, Vec<usize>), &'static str>,
>)
    requires
        elf_readable(input@),
        old(tls).wf(),
        sections_of(input@, layout.sections@),
        inputs_of(input@, layout.sections@, layout.inputs@),
        old(tls).records().len() + layout.inputs.len() + 1 < usize::MAX,
    ensures
        final(tls).wf(),
        separate_planned(input@, *layout, *old(tls), *final(tls), r),
{
    proof {
        assert(layout.sections.len() <= SHN_LORESERVE) by {
            if layout.sections.len() > SHN_LORESERVE {
                assert(crate::elf::iterated_section(input@, SHN_LORESERVE as int));
            }
        }
        lemma_alloc_indices_len(layout.sections@);
    }
    let symtab = match find_symbol_table(input, &layout.sections) {
        Err(e) => {
            return Some(Err(e));
        },
        Ok(i) => i,
    };
    let entries = read_symbol_entries(input, symtab);
    let globals = global_section_indices(&entries);
    proof {
        assert(globals@.to_set() =~= globals_of(entries@));
        assert(symbols_of(input@, symtab, entries@));
    }
    let have_text = layout.text_bytes > 0;
    let have_ro = layout.ro_bytes > 0;
    let have_rw = layout.rw_bytes > 0;
    if !check_separate_plan_fits(&layout.inputs, &globals, have_text, have_ro, have_rw) {
        return None;
    }
    match plan_separate_sections(&layout.inputs, &globals, have_text, have_ro, have_rw, tls) {
        Ok(v) => Some(Ok((v, globals))),
        Err(e) => Some(Err(e)),
    }
}

/// The page group that holds sections of type `typ`: executable code in the
/// text pages, `.data` and `.bss` in the read-write pages, and everything
/// else (read-only data, TLS images, unwinding tables) in the read-only pages.
pub open spec fn group_of_type(typ: SectionType) -> PagesKind {
    if typ == SectionType::Text {
        PagesKind::Text
    } else if typ == SectionType::Data || typ == SectionType::Bss {
        PagesKind::ReadWrite
    } else {
        PagesKind::ReadOnly
    }
}

/// A section of a crate whose sections are not merged is loaded with the
/// type that its flags and name call for, into the page group of that type:
/// executable (and not writable) sections as `Text`; TLS sections as
/// `TlsData` or `TlsBss`; other writable sections as `Data` or `Bss`; among
/// the rest, `.rodata.*` as `Rodata`, `.gcc_except_table.*` as
/// `GccExceptTable` and `.eh_frame` as `EhFrame`.
pub proof fn law_separate_type_follows_flags_and_name(
    inp: SectionInput,
    globals: Set<usize>,
    have_text: bool,
    have_ro: bool,
    have_rw: bool,
)
    ensures
        separate_step(inp, globals, have_text, have_ro, have_rw) matches Step::Load(l) ==> {
            let f = inp.header.flags;
            let is_write = f & SHF_WRITE == SHF_WRITE;
            let is_exec = f & SHF_EXECINSTR == SHF_EXECINSTR;
            let is_tls = f & SHF_TLS == SHF_TLS;
            let plain = !(is_exec && !is_write) && !is_tls && !is_write;
            let n = input_name(inp)->0;
            &&& input_name(inp) is Some
            &&& l.pages == group_of_type(l.typ)
            &&& (l.typ == SectionType::Text <==> is_exec && !is_write)
            &&& ((l.typ == SectionType::TlsData || l.typ == SectionType::TlsBss) <==> !(is_exec && !is_write)
                && is_tls)
            &&& ((l.typ == SectionType::Data || l.typ == SectionType::Bss) <==> !(is_exec && !is_write) && !is_tls
                && is_write)
            &&& (l.typ == SectionType::Rodata <==> plain && has_prefix(n, ".rodata."@))
            &&& (l.typ == SectionType::GccExceptTable <==> plain && !has_prefix(n, ".rodata."@) && has_prefix(
                n,
                ".gcc_except_table."@,
            ))
            &&& (l.typ == SectionType::EhFrame <==> plain && n == ".eh_frame"@)
        },
{
    reveal_strlit(".eh_frame");
    reveal_strlit(".rodata.");
    reveal_strlit(".gcc_except_table.");
    assert(!has_prefix(".eh_frame"@, ".rodata."@)) by {
        assert(".eh_frame"@[1] != ".rodata."@[1]);
    }
    assert(!has_prefix(".eh_frame"@, ".gcc_except_table."@)) by {
        assert(".eh_frame"@.len() < ".gcc_except_table."@.len());
    }
}

} // verus!
