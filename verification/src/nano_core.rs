//! The sections and symbols of the base kernel image, which the bootloader
//! has already loaded and which is running: they are read from its textual
//! symbol table (the output of `readelf -S -s`) or from its ELF file, and
//! described by their place in the three regions that hold the image.

use vstd::prelude::*;
use crate::section::SectionType;
use crate::section_loader::PagesKind;
use crate::symbol_text::{
    trim, is_ws, is_whitespace, views_of, lines, lines_of, words, words_of, contains,
    first_occurrence, occurs_at, find, parse_radix, parse_usize, slice_of, trimmed, string_of,
    starts_with,
};
use crate::text::chars_of;
use vstd::string::StringSliceAdditionalSpecFns;
use crate::elf::{elf_readable, names_readable, lemma_entries_names_readable, 
    ElfSection, SymbolEntry, SHN_LORESERVE, elf_header_error, elf_section_name, elf_string,
    elf_symbol_count, first_symtab, iterated_sections, symbol_entries_read, binding_bits, type_bits,
    header_error, read_section_headers, find_symbol_table, section_name, string_at,
    read_symbol_entries,
};
use crate::merged_loader::valid_binding_bits;
use crate::demangle::{demangled, demangle_forms};
use crate::section_loader::str_eq;
use crate::elf_check::{check_elf_readable, UNREADABLE_ELF_FILE};
use vstd::utf8::{valid_utf8, decode_utf8, encode_utf8, encode_scalar};

verus! {

/// The error of `VirtualAddress::new` for an address that is not canonical.
pub const NON_CANONICAL_ADDRESS: &'static str = "VirtualAddress bits 48-63 must be a sign-extension of bit 47";

/// Bits 47 to 63 of `v` are all equal.
pub open spec fn is_canonical(v: usize) -> bool {
    v < 0x8000_0000_0000 || v >= 0xFFFF_8000_0000_0000
}

/// Checks that `v` is a canonical virtual address.
pub fn virtual_address(v: usize) -> (r: Result<usize, &'static str>)
    ensures
        is_canonical(v) ==> r == Ok::<usize, &'static str>(v),
        !is_canonical(v) ==> r == Err::<usize, &'static str>(NON_CANONICAL_ADDRESS),
{
    let w = v as u64;
    if w < 0x8000_0000_0000u64 || w >= 0xFFFF_8000_0000_0000u64 {
        Ok(v)
    } else {
        Err(NON_CANONICAL_ADDRESS)
    }
}

/// The bounds of one region of mapped pages: its first address and its size
/// in bytes.
#[derive(Debug, Clone, Copy, PartialEq, Eq, Structural)]
pub struct PagesRange {
    pub start: usize,
    pub size: usize,
}

impl PagesRange {
    /// The offset of `vaddr` from the start of the region, where the region
    /// covers it.
    pub open spec fn offset_spec(self, vaddr: usize) -> Option<usize> {
        if self.start <= vaddr && vaddr - self.start < self.size {
            Some((vaddr - self.start) as usize)
        } else {
            None
        }
    }

    /// Returns the offset of `vaddr` from the start of the region, or `None`
    /// where the region does not cover it.
    pub fn offset_of_address(&self, vaddr: usize) -> (r: Option<usize>)
        ensures
            r == self.offset_spec(vaddr),
    {
        if self.start <= vaddr && vaddr - self.start < self.size {
            Some(vaddr - self.start)
        } else {
            None
        }
    }
}

/// The regions that hold the running image: executable, read-only and
/// read-write.
#[derive(Debug, Clone, Copy, PartialEq, Eq, Structural)]
pub struct NanoCorePages {
    pub text: PagesRange,
    pub rodata: PagesRange,
    pub data: PagesRange,
}

/// The section header indices of `.text`, `.rodata`, `.data` and `.bss`.
#[derive(Debug, Clone, Copy, PartialEq, Eq, Structural)]
pub struct MainShndx {
    pub text_shndx: usize,
    pub rodata_shndx: usize,
    pub data_shndx: usize,
    pub bss_shndx: usize,
}

/// A section of the running image.
pub struct NanoCoreSection {
    pub typ: SectionType,
    pub name: String,
    /// The region that holds it.
    pub pages: PagesKind,
    /// Its offset in that region.
    pub mapped_pages_offset: usize,
    pub virt_addr: usize,
    pub size: usize,
    pub global: bool,
}

/// A section of the running image, as a specification value.
pub struct SectionView {
    pub typ: SectionType,
    pub name: Seq<char>,
    pub pages: PagesKind,
    pub mapped_pages_offset: usize,
    pub virt_addr: usize,
    pub size: usize,
    pub global: bool,
}

impl View for NanoCoreSection {
    type V = SectionView;

    open spec fn view(&self) -> SectionView {
        SectionView {
            typ: self.typ,
            name: self.name@,
            pages: self.pages,
            mapped_pages_offset: self.mapped_pages_offset,
            virt_addr: self.virt_addr,
            size: self.size,
            global: self.global,
        }
    }
}

/// What parsing the image yields. Section `i` is `sections[i]`; the indices
/// of the global sections and of the `.data` and `.bss` sections are listed
/// in increasing order; `init_symbols` holds the other symbols (constants of
/// the assembler and the linker) in the order they were found, a later one
/// taking the place of an earlier one of the same name.
pub struct ParsedCrateItems {
    pub sections: Vec<NanoCoreSection>,
    pub global_sections: Vec<usize>,
    pub data_sections: Vec<usize>,
    pub init_symbols: Vec<(String, usize)>,
}

/// `ParsedCrateItems` as a specification value.
pub struct ItemsView {
    pub sections: Seq<SectionView>,
    pub global_sections: Seq<usize>,
    pub data_sections: Seq<usize>,
    pub init_symbols: Seq<(Seq<char>, usize)>,
}

impl View for ParsedCrateItems {
    type V = ItemsView;

    open spec fn view(&self) -> ItemsView {
        ItemsView {
            sections: self.sections@.map_values(|s: NanoCoreSection| s@),
            global_sections: self.global_sections@,
            data_sections: self.data_sections@,
            init_symbols: self.init_symbols@.map_values(|p: (String, usize)| (p.0@, p.1)),
        }
    }
}

impl ParsedCrateItems {
    /// No sections and no symbols.
    pub fn empty() -> (r: ParsedCrateItems)
        ensures
            r@ == empty_items(),
            r.sections@.len() == 0,
    {
        let r = ParsedCrateItems {
            sections: Vec::new(),
            global_sections: Vec::new(),
            data_sections: Vec::new(),
            init_symbols: Vec::new(),
        };
        assert(r@.sections =~= Seq::<SectionView>::empty());
        assert(r@.init_symbols =~= Seq::<(Seq<char>, usize)>::empty());
        r
    }
}

pub open spec fn empty_items() -> ItemsView {
    ItemsView {
        sections: Seq::empty(),
        global_sections: Seq::empty(),
        data_sections: Seq::empty(),
        init_symbols: Seq::empty(),
    }
}

/// The map of other symbols that `init_symbols` describes.
pub open spec fn init_symbol_map(syms: Seq<(Seq<char>, usize)>) -> Map<Seq<char>, usize>
    decreases syms.len(),
{
    if syms.len() == 0 {
        Map::empty()
    } else {
        init_symbol_map(syms.drop_last()).insert(syms.last().0, syms.last().1)
    }
}

/// `items` with the section `s` added under the next index.
pub open spec fn with_section(items: ItemsView, s: SectionView) -> ItemsView {
    let c = items.sections.len() as usize;
    ItemsView {
        sections: items.sections.push(s),
        global_sections: if s.global {
            items.global_sections.push(c)
        } else {
            items.global_sections
        },
        data_sections: if s.typ == SectionType::Data || s.typ == SectionType::Bss {
            items.data_sections.push(c)
        } else {
            items.data_sections
        },
        init_symbols: items.init_symbols,
    }
}

/// What adding the symbol `name` (of section header index `ndx`, size `size`,
/// address `vaddr`) does: in one of the four main sections it becomes a new
/// section of the region that holds that section, at its offset there; any
/// other symbol is kept as an other symbol with its address.
pub open spec fn add_section_outcome(
    items: ItemsView,
    sh: MainShndx,
    pages: NanoCorePages,
    ndx: usize,
    name: Seq<char>,
    size: usize,
    vaddr: usize,
    global: bool,
) -> Result<ItemsView, &'static str> {
    if ndx == sh.text_shndx || ndx == sh.rodata_shndx || ndx == sh.data_shndx || ndx
        == sh.bss_shndx {
        let (typ, kind, range, msg) = if ndx == sh.text_shndx {
            (
                SectionType::Text,
                PagesKind::Text,
                pages.text,
                "nano_core text section wasn't covered by its mapped pages!",
            )
        } else if ndx == sh.rodata_shndx {
            (
                SectionType::Rodata,
                PagesKind::ReadOnly,
                pages.rodata,
                "nano_core rodata section wasn't covered by its mapped pages!",
            )
        } else if ndx == sh.data_shndx {
            (
                SectionType::Data,
                PagesKind::ReadWrite,
                pages.data,
                "nano_core data section wasn't covered by its mapped pages!",
            )
        } else {
            (
                SectionType::Bss,
                PagesKind::ReadWrite,
                pages.data,
                "nano_core bss section wasn't covered by its mapped pages!",
            )
        };
        if !is_canonical(vaddr) {
            Err(NON_CANONICAL_ADDRESS)
        } else {
            match range.offset_spec(vaddr) {
                None => Err(msg),
                Some(off) => Ok(
                    with_section(
                        items,
                        SectionView {
                            typ,
                            name,
                            pages: kind,
                            mapped_pages_offset: off,
                            virt_addr: vaddr,
                            size,
                            global,
                        },
                    ),
                ),
            }
        }
    } else {
        Ok(
            ItemsView {
                init_symbols: items.init_symbols.push((name, vaddr)),
                ..items
            },
        )
    }
}

/// Appends `sec` to the sections of `items`, listing its index among the
/// global and the data sections as it is one of them.
fn push_section(items: &mut ParsedCrateItems, sec: NanoCoreSection)
    requires
        old(items).sections@.len() < usize::MAX,
    ensures
        final(items)@ == with_section(old(items)@, sec@),
        final(items).sections@.len() == old(items).sections@.len() + 1,
{
    let c = items.sections.len();
    let global = sec.global;
    let is_data = match sec.typ {
        SectionType::Data | SectionType::Bss => true,
        _ => false,
    };
    let ghost before = items.sections@;
    let ghost v = sec@;
    items.sections.push(sec);
    assert(items.sections@.map_values(|s: NanoCoreSection| s@) =~= before.map_values(
        |s: NanoCoreSection| s@,
    ).push(v));
    if global {
        items.global_sections.push(c);
    }
    if is_data {
        items.data_sections.push(c);
    }
}

/// Adds the symbol `sec_name` of section header index `sec_ndx` to `items`:
/// as a new section where the index is that of one of the four main
/// sections, else as an other symbol. Fails, changing nothing, where the
/// address is not canonical or the region does not cover it.
pub fn add_new_section(
    shndxs: &MainShndx,
    crate_items: &mut ParsedCrateItems,
    pages: &NanoCorePages,
    sec_ndx: usize,
    sec_name: String,
    sec_size: usize,
    sec_vaddr: usize,
    global: bool,
) -> (r: Result<(), &'static str>)
    requires
        old(crate_items).sections@.len() < usize::MAX,
    ensures
        match add_section_outcome(
            old(crate_items)@,
            *shndxs,
            *pages,
            sec_ndx,
            sec_name@,
            sec_size,
            sec_vaddr,
            global,
        ) {
            Ok(v) => r is Ok && final(crate_items)@ == v,
            Err(m) => r == Err::<(), &'static str>(m) && final(crate_items)@ == old(crate_items)@,
        },
        final(crate_items).sections@.len() <= old(crate_items).sections@.len() + 1,
{
    let (typ, kind, range, msg) = if sec_ndx == shndxs.text_shndx {
        (
            SectionType::Text,
            PagesKind::Text,
            pages.text,
            "nano_core text section wasn't covered by its mapped pages!",
        )
    } else if sec_ndx == shndxs.rodata_shndx {
        (
            SectionType::Rodata,
            PagesKind::ReadOnly,
            pages.rodata,
            "nano_core rodata section wasn't covered by its mapped pages!",
        )
    } else if sec_ndx == shndxs.data_shndx {
        (
            SectionType::Data,
            PagesKind::ReadWrite,
            pages.data,
            "nano_core data section wasn't covered by its mapped pages!",
        )
    } else if sec_ndx == shndxs.bss_shndx {
        (
            SectionType::Bss,
            PagesKind::ReadWrite,
            pages.data,
            "nano_core bss section wasn't covered by its mapped pages!",
        )
    } else {
        let ghost before = crate_items.init_symbols@;
        let ghost nm = sec_name@;
        crate_items.init_symbols.push((sec_name, sec_vaddr));
        assert(crate_items.init_symbols@.map_values(|p: (String, usize)| (p.0@, p.1))
            =~= before.map_values(|p: (String, usize)| (p.0@, p.1)).push((nm, sec_vaddr)));
        return Ok(());
    };
    let vaddr = virtual_address(sec_vaddr)?;
    let off = match range.offset_of_address(vaddr) {
        Some(o) => o,
        None => {
            return Err(msg);
        },
    };
    push_section(
        crate_items,
        NanoCoreSection {
            typ,
            name: sec_name,
            pages: kind,
            mapped_pages_offset: off,
            virt_addr: vaddr,
            size: sec_size,
            global,
        },
    );
    Ok(())
}


/// The section header index written between the first `[` and the first `]`
/// of `line`.
pub open spec fn section_index(line: Seq<char>) -> Option<usize> {
    match (first_occurrence(line, "["@), first_occurrence(line, "]"@)) {
        (Some(a), Some(b)) => if a + 1 <= b {
            parse_radix(trim(line.subrange(a + 1, b)), 10)
        } else {
            None
        },
        _ => None,
    }
}

/// Parses a section header's index, such as `[ 7]`, out of `line`.
pub fn parse_section_ndx(line: &Vec<char>) -> (r: Option<usize>)
    ensures
        r == section_index(line@),
{
    let open = chars_of("[");
    let close = chars_of("]");
    match (find(line, &open), find(line, &close)) {
        (Some(a), Some(b)) => {
            if a < b {
                let inner = slice_of(line, a + 1, b);
                let t = trimmed(&inner);
                parse_usize(&t, 10)
            } else {
                None
            }
        },
        _ => None,
    }
}

/// The address (third word, hexadecimal, canonical) and the size (fifth
/// word, hexadecimal) of a section header line that begins at the section's
/// name.
pub open spec fn section_vaddr_size(s: Seq<char>) -> Option<(usize, usize)> {
    let ws = words(s);
    if ws.len() < 5 {
        None
    } else {
        match (parse_radix(ws[2], 16), parse_radix(ws[4], 16)) {
            (Some(a), Some(z)) => if is_canonical(a) {
                Some((a, z))
            } else {
                None
            },
            _ => None,
        }
    }
}

/// Parses a section header's address and size.
pub fn parse_section_vaddr_size(s: &Vec<char>) -> (r: Option<(usize, usize)>)
    ensures
        r == section_vaddr_size(s@),
{
    let ws = words_of(s);
    if ws.len() < 5 {
        return None;
    }
    assert(ws@[2]@ == words(s@)[2]);
    assert(ws@[4]@ == words(s@)[4]);
    match (parse_usize(&ws[2], 16), parse_usize(&ws[4], 16)) {
        (Some(a), Some(z)) => match virtual_address(a) {
            Ok(v) => Some((v, z)),
            Err(_) => None,
        },
        _ => None,
    }
}

/// The state of the scan over the section headers: the indices found so far
/// and the unwinding sections added.
pub struct HeaderScan {
    pub text_shndx: Option<usize>,
    pub rodata_shndx: Option<usize>,
    pub data_shndx: Option<usize>,
    pub bss_shndx: Option<usize>,
    pub items: ParsedCrateItems,
}

/// `HeaderScan` as a specification value.
pub struct HeaderView {
    pub text: Option<usize>,
    pub rodata: Option<usize>,
    pub data: Option<usize>,
    pub bss: Option<usize>,
    pub items: ItemsView,
}

impl View for HeaderScan {
    type V = HeaderView;

    open spec fn view(&self) -> HeaderView {
        HeaderView {
            text: self.text_shndx,
            rodata: self.rodata_shndx,
            data: self.data_shndx,
            bss: self.bss_shndx,
            items: self.items@,
        }
    }
}

pub open spec fn empty_header() -> HeaderView {
    HeaderView { text: None, rodata: None, data: None, bss: None, items: empty_items() }
}

/// `h` with the unwinding section of type `typ` whose header is the line
/// `line`, found at `pat`, added: it lies in the read-only region.
pub open spec fn unwind_section(
    h: HeaderView,
    line: Seq<char>,
    pat: Seq<char>,
    typ: SectionType,
    pages: NanoCorePages,
    parse_msg: &'static str,
    cover_msg: &'static str,
) -> Result<HeaderView, &'static str> {
    let start = match first_occurrence(line, pat) {
        Some(s) => s,
        None => 0,
    };
    match section_vaddr_size(line.subrange(start, line.len() as int)) {
        None => Err(parse_msg),
        Some((vaddr, size)) => match pages.rodata.offset_spec(vaddr) {
            None => Err(cover_msg),
            Some(off) => Ok(
                HeaderView {
                    items: with_section(
                        h.items,
                        SectionView {
                            typ,
                            name: typ.spec_name(),
                            pages: PagesKind::ReadOnly,
                            mapped_pages_offset: off,
                            virt_addr: vaddr,
                            size,
                            global: false,
                        },
                    ),
                    ..h
                },
            ),
        },
    }
}

/// What one line of the section header list does to the scan.
#[verifier::opaque]
pub open spec fn header_step(h: HeaderView, raw: Seq<char>, pages: NanoCorePages) -> Result<
    HeaderView,
    &'static str,
> {
    let line = trim(raw);
    if line.len() == 0 {
        Ok(h)
    } else if contains(line, ".text "@) && contains(line, "PROGBITS"@) {
        Ok(HeaderView { text: section_index(line), ..h })
    } else if contains(line, ".data "@) && contains(line, "PROGBITS"@) {
        Ok(HeaderView { data: section_index(line), ..h })
    } else if contains(line, ".rodata "@) && contains(line, "PROGBITS"@) {
        Ok(HeaderView { rodata: section_index(line), ..h })
    } else if contains(line, ".bss "@) && contains(line, "NOBITS"@) {
        Ok(HeaderView { bss: section_index(line), ..h })
    } else if contains(line, ".eh_frame "@) {
        unwind_section(
            h,
            line,
            ".eh_frame "@,
            SectionType::EhFrame,
            pages,
            "Failed to parse the .eh_frame section header's address and size",
            "the nano_core .eh_frame section wasn't covered by the read-only mapped pages!",
        )
    } else if contains(line, ".gcc_except_table "@) {
        unwind_section(
            h,
            line,
            ".gcc_except_table "@,
            SectionType::GccExceptTable,
            pages,
            "Failed to parse the .gcc_except_table section header's address and size",
            "the nano_core .gcc_except_table section wasn't covered by the read-only mapped pages!",
        )
    } else {
        Ok(h)
    }
}

/// The scan over the first `n` lines of `ls`.
pub open spec fn header_fold(ls: Seq<Seq<char>>, pages: NanoCorePages, n: int) -> Result<
    HeaderView,
    &'static str,
>
    decreases n,
{
    if n <= 0 {
        Ok(empty_header())
    } else {
        match header_fold(ls, pages, n - 1) {
            Err(m) => Err(m),
            Ok(h) => header_step(h, ls[n - 1], pages),
        }
    }
}

proof fn lemma_header_fold_err(ls: Seq<Seq<char>>, pages: NanoCorePages, k: int, n: int)
    requires
        0 <= k <= n,
        header_fold(ls, pages, k) is Err,
    ensures
        header_fold(ls, pages, n) == header_fold(ls, pages, k),
    decreases n - k,
{
    if k < n {
        lemma_header_fold_err(ls, pages, k, n - 1);
    }
}

/// The literals that the scan over the section headers looks for.
struct HeaderPatterns {
    text: Vec<char>,
    data: Vec<char>,
    rodata: Vec<char>,
    bss: Vec<char>,
    progbits: Vec<char>,
    nobits: Vec<char>,
    eh_frame: Vec<char>,
    gcc_except_table: Vec<char>,
}

spec fn patterns_ok(p: HeaderPatterns) -> bool {
    &&& p.text@ == ".text "@
    &&& p.data@ == ".data "@
    &&& p.rodata@ == ".rodata "@
    &&& p.bss@ == ".bss "@
    &&& p.progbits@ == "PROGBITS"@
    &&& p.nobits@ == "NOBITS"@
    &&& p.eh_frame@ == ".eh_frame "@
    &&& p.gcc_except_table@ == ".gcc_except_table "@
}

fn header_patterns() -> (p: HeaderPatterns)
    ensures
        patterns_ok(p),
{
    HeaderPatterns {
        text: chars_of(".text "),
        data: chars_of(".data "),
        rodata: chars_of(".rodata "),
        bss: chars_of(".bss "),
        progbits: chars_of("PROGBITS"),
        nobits: chars_of("NOBITS"),
        eh_frame: chars_of(".eh_frame "),
        gcc_except_table: chars_of(".gcc_except_table "),
    }
}

/// Adds the unwinding section whose header is `line` to the scan.
fn scan_unwind_section(
    h: &mut HeaderScan,
    line: &Vec<char>,
    pat: &Vec<char>,
    typ: SectionType,
    pages: &NanoCorePages,
    parse_msg: &'static str,
    cover_msg: &'static str,
) -> (r: Result<(), &'static str>)
    requires
        old(h).items.sections@.len() < usize::MAX,
        contains(line@, pat@),
    ensures
        match unwind_section(old(h)@, line@, pat@, typ, *pages, parse_msg, cover_msg) {
            Ok(v) => r is Ok && final(h)@ == v,
            Err(m) => r == Err::<(), &'static str>(m),
        },
        final(h).items.sections@.len() <= old(h).items.sections@.len() + 1,
{
    let start = match find(line, pat) {
        Some(s) => s,
        None => 0,
    };
    let rest = slice_of(line, start, line.len());
    match parse_section_vaddr_size(&rest) {
        None => Err(parse_msg),
        Some((vaddr, size)) => match pages.rodata.offset_of_address(vaddr) {
            None => Err(cover_msg),
            Some(off) => {
                push_section(
                    &mut h.items,
                    NanoCoreSection {
                        typ,
                        name: typ.name().to_owned(),
                        pages: PagesKind::ReadOnly,
                        mapped_pages_offset: off,
                        virt_addr: vaddr,
                        size,
                        global: false,
                    },
                );
                Ok(())
            },
        },
    }
}

/// Applies one line of the section header list to the scan.
fn scan_header_line(
    h: &mut HeaderScan,
    raw: &Vec<char>,
    pages: &NanoCorePages,
    pats: &HeaderPatterns,
) -> (r: Result<(), &'static str>)
    requires
        patterns_ok(*pats),
        old(h).items.sections@.len() < usize::MAX,
    ensures
        match header_step(old(h)@, raw@, *pages) {
            Ok(v) => r is Ok && final(h)@ == v,
            Err(m) => r == Err::<(), &'static str>(m),
        },
        final(h).items.sections@.len() <= old(h).items.sections@.len() + 1,
{
    reveal(header_step);
    let line = trimmed(raw);
    if line.len() == 0 {
        return Ok(());
    }
    let has_progbits = find(&line, &pats.progbits).is_some();
    if find(&line, &pats.text).is_some() && has_progbits {
        h.text_shndx = parse_section_ndx(&line);
        Ok(())
    } else if find(&line, &pats.data).is_some() && has_progbits {
        h.data_shndx = parse_section_ndx(&line);
        Ok(())
    } else if find(&line, &pats.rodata).is_some() && has_progbits {
        h.rodata_shndx = parse_section_ndx(&line);
        Ok(())
    } else if find(&line, &pats.bss).is_some() && find(&line, &pats.nobits).is_some() {
        h.bss_shndx = parse_section_ndx(&line);
        Ok(())
    } else if find(&line, &pats.eh_frame).is_some() {
        scan_unwind_section(
            h,
            &line,
            &pats.eh_frame,
            SectionType::EhFrame,
            pages,
            "Failed to parse the .eh_frame section header's address and size",
            "the nano_core .eh_frame section wasn't covered by the read-only mapped pages!",
        )
    } else if find(&line, &pats.gcc_except_table).is_some() {
        scan_unwind_section(
            h,
            &line,
            &pats.gcc_except_table,
            SectionType::GccExceptTable,
            pages,
            "Failed to parse the .gcc_except_table section header's address and size",
            "the nano_core .gcc_except_table section wasn't covered by the read-only mapped pages!",
        )
    } else {
        Ok(())
    }
}

/// The indices of the four main sections, each of which must have been found.
pub open spec fn main_shndx(h: HeaderView) -> Result<MainShndx, &'static str> {
    if h.text is None {
        Err("parse_nano_core_symbol_file(): couldn't find .text section index")
    } else if h.rodata is None {
        Err("parse_nano_core_symbol_file(): couldn't find .rodata section index")
    } else if h.data is None {
        Err("parse_nano_core_symbol_file(): couldn't find .data section index")
    } else if h.bss is None {
        Err("parse_nano_core_symbol_file(): couldn't find .bss section index")
    } else {
        Ok(
            MainShndx {
                text_shndx: h.text->0,
                rodata_shndx: h.rodata->0,
                data_shndx: h.data->0,
                bss_shndx: h.bss->0,
            },
        )
    }
}


/// Position `i` of `t` separates two columns of a symbol table line: a
/// whitespace character right after one that is not.
pub open spec fn is_sep(t: Seq<char>, i: int) -> bool {
    0 < i < t.len() && is_ws(t[i]) && !is_ws(t[i - 1])
}

/// The first separator at or after `i`, or the length of `t`.
pub open spec fn sep_from(t: Seq<char>, i: int) -> int
    decreases t.len() - i,
{
    if i >= t.len() {
        t.len() as int
    } else if is_sep(t, i) {
        i
    } else {
        sep_from(t, i + 1)
    }
}

pub proof fn lemma_sep_from(t: Seq<char>, i: int)
    requires
        0 <= i <= t.len(),
    ensures
        i <= sep_from(t, i) <= t.len(),
        sep_from(t, i) < t.len() ==> is_sep(t, sep_from(t, i)),
    decreases t.len() - i,
{
    if i < t.len() && !is_sep(t, i) {
        lemma_sep_from(t, i + 1);
    }
}

/// The columns of `t` from `i` on, at most `left` of them, the last holding
/// the rest of the line.
pub open spec fn pieces_from(t: Seq<char>, i: int, left: nat) -> Seq<Seq<char>>
    decreases t.len() - i,
{
    if i < 0 || i > t.len() {
        Seq::empty()
    } else if left <= 1 {
        seq![t.subrange(i, t.len() as int)]
    } else {
        let s = sep_from(t, i);
        if s < t.len() {
            proof {
                lemma_sep_from(t, i);
            }
            seq![t.subrange(i, s)] + pieces_from(t, s + 1, (left - 1) as nat)
        } else {
            seq![t.subrange(i, t.len() as int)]
        }
    }
}

/// Each of `ps`, trimmed.
pub open spec fn trim_all(ps: Seq<Seq<char>>) -> Seq<Seq<char>> {
    ps.map_values(|p: Seq<char>| trim(p))
}

/// The columns of a symbol table line, trimmed: the first seven are split at
/// runs of whitespace, the eighth holds the rest of the line (a symbol's
/// name can hold spaces).
pub open spec fn columns(line: Seq<char>) -> Seq<Seq<char>> {
    trim_all(pieces_from(line, 0, 8))
}

/// Splits a symbol table line into its columns.
pub fn columns_of(line: &Vec<char>) -> (r: Vec<Vec<char>>)
    ensures
        views_of(r@) == columns(line@),
{
    let n = line.len();
    let mut r: Vec<Vec<char>> = Vec::new();
    let mut i: usize = 0;
    let mut left: usize = 8;
    while left > 1
        invariant
            i <= n == line@.len(),
            1 <= left <= 8,
            columns(line@) == views_of(r@) + trim_all(pieces_from(line@, i as int, left as nat)),
        decreases left,
    {
        let mut s = i;
        while s < n && !(s > 0 && is_whitespace(line[s]) && !is_whitespace(line[s - 1]))
            invariant
                i <= s <= n == line@.len(),
                sep_from(line@, i as int) == sep_from(line@, s as int),
            decreases n - s,
        {
            s = s + 1;
        }
        let ghost before = views_of(r@);
        let ghost tail = pieces_from(line@, i as int, left as nat);
        if s < n {
            let piece = trimmed(&slice_of(line, i, s));
            r.push(piece);
            assert(views_of(r@) =~= before.push(piece@));
            let ghost next = pieces_from(line@, s + 1, (left - 1) as nat);
            assert(tail == seq![line@.subrange(i as int, s as int)] + next);
            assert(trim_all(tail) =~= seq![piece@] + trim_all(next));
            assert(columns(line@) =~= views_of(r@) + trim_all(next));
            i = s + 1;
            left = left - 1;
        } else {
            let piece = trimmed(&slice_of(line, i, n));
            r.push(piece);
            assert(views_of(r@) =~= before.push(piece@));
            assert(tail == seq![line@.subrange(i as int, n as int)]);
            assert(trim_all(tail) =~= seq![piece@]);
            assert(columns(line@) =~= views_of(r@));
            return r;
        }
    }
    let ghost before = views_of(r@);
    let piece = trimmed(&slice_of(line, i, n));
    r.push(piece);
    assert(views_of(r@) =~= before.push(piece@));
    assert(trim_all(pieces_from(line@, i as int, left as nat)) =~= seq![piece@]);
    assert(columns(line@) =~= views_of(r@));
    r
}

/// The number of bytes of the UTF-8 encoding of `c`.
pub open spec fn utf8_width(c: char) -> int {
    let v = c as u32;
    if v < 0x80 {
        1
    } else if v < 0x800 {
        2
    } else if v < 0x10000 {
        3
    } else {
        4
    }
}

/// What follows the first two bytes of `s`, where byte two is a character
/// boundary (what `str::get(2..)` gives).
pub open spec fn after_two_bytes(s: Seq<char>) -> Option<Seq<char>> {
    if s.len() >= 1 && utf8_width(s[0]) == 2 {
        Some(s.drop_first())
    } else if s.len() >= 2 && utf8_width(s[0]) == 1 && utf8_width(s[1]) == 1 {
        Some(s.subrange(2, s.len() as int))
    } else {
        None
    }
}

fn width_of(c: char) -> (r: u32)
    ensures
        r == utf8_width(c),
{
    let v = c as u32;
    if v < 0x80 {
        1
    } else if v < 0x800 {
        2
    } else if v < 0x10000 {
        3
    } else {
        4
    }
}

/// The value of the size column: decimal, or else hexadecimal after a
/// two-byte prefix such as `0x`.
pub open spec fn size_column(s: Seq<char>) -> Option<usize> {
    match parse_radix(s, 10) {
        Some(v) => Some(v),
        None => match after_two_bytes(s) {
            Some(rest) => parse_radix(rest, 16),
            None => None,
        },
    }
}

/// Parses the size column of a symbol table line.
pub fn parse_size_column(s: &Vec<char>) -> (r: Option<usize>)
    ensures
        r == size_column(s@),
{
    match parse_usize(s, 10) {
        Some(v) => Some(v),
        None => {
            if s.len() >= 1 && width_of(s[0]) == 2 {
                parse_usize(&slice_of(s, 1, s.len()), 16)
            } else if s.len() >= 2 && width_of(s[0]) == 1 && width_of(s[1]) == 1 {
                parse_usize(&slice_of(s, 2, s.len()), 16)
            } else {
                None
            }
        },
    }
}

/// The error for a symbol table line that lacks column `k`.
pub open spec fn missing_column(k: int) -> &'static str {
    if k <= 0 {
        "parse_nano_core_symbol_file(): couldn't get column 0 'Num'"
    } else if k == 1 {
        "parse_nano_core_symbol_file(): couldn't get column 1 'Value'"
    } else if k == 2 {
        "parse_nano_core_symbol_file(): couldn't get column 2 'Size'"
    } else if k == 3 {
        "parse_nano_core_symbol_file(): couldn't get column 3 'Type'"
    } else if k == 4 {
        "parse_nano_core_symbol_file(): couldn't get column 4 'Bind'"
    } else if k == 5 {
        "parse_nano_core_symbol_file(): couldn't get column 5 'Vis'"
    } else if k == 6 {
        "parse_nano_core_symbol_file(): couldn't get column 6 'Ndx'"
    } else {
        "parse_nano_core_symbol_file(): couldn't get column 7 'Name'"
    }
}

fn missing_column_msg(k: usize) -> (r: &'static str)
    ensures
        r == missing_column(k as int),
{
    if k == 0 {
        "parse_nano_core_symbol_file(): couldn't get column 0 'Num'"
    } else if k == 1 {
        "parse_nano_core_symbol_file(): couldn't get column 1 'Value'"
    } else if k == 2 {
        "parse_nano_core_symbol_file(): couldn't get column 2 'Size'"
    } else if k == 3 {
        "parse_nano_core_symbol_file(): couldn't get column 3 'Type'"
    } else if k == 4 {
        "parse_nano_core_symbol_file(): couldn't get column 4 'Bind'"
    } else if k == 5 {
        "parse_nano_core_symbol_file(): couldn't get column 5 'Vis'"
    } else if k == 6 {
        "parse_nano_core_symbol_file(): couldn't get column 6 'Ndx'"
    } else {
        "parse_nano_core_symbol_file(): couldn't get column 7 'Name'"
    }
}

/// One line of the symbol table.
pub enum SymbolLine {
    /// An empty line.
    Blank,
    /// An entry whose section index is not a number (such as `ABS`).
    Unindexed,
    /// An entry: its address, size, section index, whether it is global,
    /// and its name.
    Entry { vaddr: usize, size: usize, ndx: usize, global: bool, name: String },
    /// A line that cannot be read, and why.
    Malformed(&'static str),
}

/// `SymbolLine` as a specification value.
pub enum SymbolLineView {
    Blank,
    Unindexed,
    Entry { vaddr: usize, size: usize, ndx: usize, global: bool, name: Seq<char> },
    Malformed(&'static str),
}

impl View for SymbolLine {
    type V = SymbolLineView;

    open spec fn view(&self) -> SymbolLineView {
        match self {
            SymbolLine::Blank => SymbolLineView::Blank,
            SymbolLine::Unindexed => SymbolLineView::Unindexed,
            SymbolLine::Entry { vaddr, size, ndx, global, name } => SymbolLineView::Entry {
                vaddr: *vaddr,
                size: *size,
                ndx: *ndx,
                global: *global,
                name: name@,
            },
            SymbolLine::Malformed(m) => SymbolLineView::Malformed(*m),
        }
    }
}

/// What a line of the symbol table says: its address (column 1,
/// hexadecimal), its size (column 2), whether its binding (column 4) is
/// `GLOBAL`, its section index (column 6, decimal) and its name (the rest).
pub open spec fn symbol_line(line: Seq<char>) -> SymbolLineView {
    if line.len() == 0 {
        SymbolLineView::Blank
    } else {
        let cols = columns(line);
        if cols.len() < 8 {
            SymbolLineView::Malformed(missing_column(cols.len() as int))
        } else {
            match parse_radix(cols[1], 16) {
                None => SymbolLineView::Malformed(
                    "parse_nano_core_symbol_file(): couldn't parse virtual address (value column)",
                ),
                Some(vaddr) => match size_column(cols[2]) {
                    None => SymbolLineView::Malformed(
                        "parse_nano_core_symbol_file(): couldn't parse size column",
                    ),
                    Some(size) => match parse_radix(cols[6], 10) {
                        None => SymbolLineView::Unindexed,
                        Some(ndx) => SymbolLineView::Entry {
                            vaddr,
                            size,
                            ndx,
                            global: cols[4] == "GLOBAL"@,
                            name: cols[7],
                        },
                    },
                },
            }
        }
    }
}

/// Reads one line of the symbol table.
pub fn parse_symbol_line(line: &Vec<char>) -> (r: SymbolLine)
    ensures
        r@ == symbol_line(line@),
{
    if line.len() == 0 {
        return SymbolLine::Blank;
    }
    let cols = columns_of(line);
    if cols.len() < 8 {
        return SymbolLine::Malformed(missing_column_msg(cols.len()));
    }
    assert(cols@[1]@ == columns(line@)[1]);
    assert(cols@[2]@ == columns(line@)[2]);
    assert(cols@[4]@ == columns(line@)[4]);
    assert(cols@[6]@ == columns(line@)[6]);
    assert(cols@[7]@ == columns(line@)[7]);
    let vaddr = match parse_usize(&cols[1], 16) {
        Some(v) => v,
        None => {
            return SymbolLine::Malformed(
                "parse_nano_core_symbol_file(): couldn't parse virtual address (value column)",
            );
        },
    };
    let size = match parse_size_column(&cols[2]) {
        Some(v) => v,
        None => {
            return SymbolLine::Malformed("parse_nano_core_symbol_file(): couldn't parse size column");
        },
    };
    let ndx = match parse_usize(&cols[6], 10) {
        Some(v) => v,
        None => {
            return SymbolLine::Unindexed;
        },
    };
    let global_word = chars_of("GLOBAL");
    let global = crate::symbol_text::same_chars(&cols[4], &global_word);
    let name = string_of(&cols[7]);
    SymbolLine::Entry { vaddr, size, ndx, global, name }
}


/// The index of the first line from `k` on that begins with `Symbol table`,
/// or the number of lines.
pub open spec fn table_start_from(ls: Seq<Seq<char>>, k: int) -> int
    decreases ls.len() - k,
{
    if k >= ls.len() {
        ls.len() as int
    } else if starts_with(ls[k], "Symbol table"@) {
        k
    } else {
        table_start_from(ls, k + 1)
    }
}

proof fn lemma_table_start(ls: Seq<Seq<char>>, k: int)
    requires
        0 <= k <= ls.len(),
    ensures
        k <= table_start_from(ls, k) <= ls.len(),
    decreases ls.len() - k,
{
    if k < ls.len() && !starts_with(ls[k], "Symbol table"@) {
        lemma_table_start(ls, k + 1);
    }
}

/// The entries of the symbol table: the lines after its title line and its
/// column headings.
pub open spec fn symbol_entries(ls: Seq<Seq<char>>) -> Seq<Seq<char>> {
    let k = table_start_from(ls, 0);
    let from = if k + 2 <= ls.len() {
        k + 2
    } else {
        ls.len() as int
    };
    ls.subrange(from, ls.len() as int)
}

/// What one line of the symbol table does to the parsed items.
pub open spec fn symbol_step(
    items: ItemsView,
    line: Seq<char>,
    sh: MainShndx,
    pages: NanoCorePages,
) -> Result<ItemsView, &'static str> {
    match symbol_line(line) {
        SymbolLineView::Blank => Ok(items),
        SymbolLineView::Unindexed => Ok(items),
        SymbolLineView::Malformed(m) => Err(m),
        SymbolLineView::Entry { vaddr, size, ndx, global, name } => add_section_outcome(
            items,
            sh,
            pages,
            ndx,
            name,
            size,
            vaddr,
            global,
        ),
    }
}

/// The items after the first `n` entries of `es`, starting from `start`.
pub open spec fn symbol_fold(
    es: Seq<Seq<char>>,
    sh: MainShndx,
    pages: NanoCorePages,
    start: ItemsView,
    n: int,
) -> Result<ItemsView, &'static str>
    decreases n,
{
    if n <= 0 {
        Ok(start)
    } else {
        match symbol_fold(es, sh, pages, start, n - 1) {
            Err(m) => Err(m),
            Ok(items) => symbol_step(items, es[n - 1], sh, pages),
        }
    }
}

proof fn lemma_symbol_fold_err(
    es: Seq<Seq<char>>,
    sh: MainShndx,
    pages: NanoCorePages,
    start: ItemsView,
    k: int,
    n: int,
)
    requires
        0 <= k <= n,
        symbol_fold(es, sh, pages, start, k) is Err,
    ensures
        symbol_fold(es, sh, pages, start, n) == symbol_fold(es, sh, pages, start, k),
    decreases n - k,
{
    if k < n {
        lemma_symbol_fold_err(es, sh, pages, start, k, n - 1);
    }
}

/// What parsing the symbol table text `t` gives: the section headers are
/// scanned for the four main sections' indices and the unwinding sections;
/// then each entry of the symbol table becomes a section or an other symbol.
pub open spec fn symbol_text_outcome(t: Seq<char>, pages: NanoCorePages) -> Result<
    ItemsView,
    &'static str,
> {
    let ls = lines(t);
    match header_fold(ls, pages, ls.len() as int) {
        Err(m) => Err(m),
        Ok(h) => match main_shndx(h) {
            Err(m) => Err(m),
            Ok(sh) => {
                let es = symbol_entries(ls);
                symbol_fold(es, sh, pages, h.items, es.len() as int)
            },
        },
    }
}

/// Scans all of `ls` as section header lines.
#[verifier::spinoff_prover]
fn scan_headers(ls: &Vec<Vec<char>>, pages: &NanoCorePages) -> (r: Result<HeaderScan, &'static str>)
    requires
        ls@.len() <= isize::MAX,
    ensures
        match header_fold(views_of(ls@), *pages, ls@.len() as int) {
            Ok(v) => r matches Ok(h) && h@ == v && h.items.sections@.len() <= ls@.len(),
            Err(m) => r matches Err(e) && e == m,
        },
{
    let ghost gl = views_of(ls@);
    let pats = header_patterns();
    let mut h = HeaderScan {
        text_shndx: None,
        rodata_shndx: None,
        data_shndx: None,
        bss_shndx: None,
        items: ParsedCrateItems::empty(),
    };
    let n = ls.len();
    let mut i: usize = 0;
    while i < n
        invariant
            n == ls@.len() <= isize::MAX,
            gl == views_of(ls@),
            i <= n,
            patterns_ok(pats),
            header_fold(gl, *pages, i as int) == Ok::<HeaderView, &'static str>(h@),
            h.items.sections@.len() <= i,
        decreases n - i,
    {
        assert(ls@[i as int]@ == gl[i as int]);
        match scan_header_line(&mut h, &ls[i], pages, &pats) {
            Err(m) => {
                proof {
                    lemma_header_fold_err(gl, *pages, i + 1, n as int);
                }
                return Err(m);
            },
            Ok(()) => {},
        }
        i = i + 1;
    }
    Ok(h)
}

/// The index of the first entry line of the symbol table in `ls`.
fn symbol_entries_start(ls: &Vec<Vec<char>>) -> (from: usize)
    ensures
        from <= ls@.len(),
        symbol_entries(views_of(ls@)) == views_of(ls@).subrange(from as int, ls@.len() as int),
{
    let ghost gl = views_of(ls@);
    let n = ls.len();
    let title = chars_of("Symbol table");
    let mut k: usize = 0;
    while k < n && !crate::symbol_text::has_prefix(&ls[k], &title)
        invariant
            k <= n == ls@.len() == gl.len(),
            gl == views_of(ls@),
            title@ == "Symbol table"@,
            table_start_from(gl, 0) == table_start_from(gl, k as int),
        decreases n - k,
    {
        assert(ls@[k as int]@ == gl[k as int]);
        k = k + 1;
    }
    if k < n {
        assert(ls@[k as int]@ == gl[k as int]);
    }
    if k < n && n - k >= 2 {
        k + 2
    } else {
        n
    }
}

/// Applies the entries `ls[from..]` of the symbol table to `items`.
#[verifier::spinoff_prover]
fn scan_symbols(
    ls: &Vec<Vec<char>>,
    from: usize,
    shndxs: &MainShndx,
    pages: &NanoCorePages,
    initial: ParsedCrateItems,
) -> (r: Result<ParsedCrateItems, &'static str>)
    requires
        from <= ls@.len() <= isize::MAX,
        initial.sections@.len() <= ls@.len(),
    ensures
        match symbol_fold(
            views_of(ls@).subrange(from as int, ls@.len() as int),
            *shndxs,
            *pages,
            initial@,
            ls@.len() - from,
        ) {
            Ok(v) => r matches Ok(it) && it@ == v,
            Err(m) => r matches Err(e) && e == m,
        },
{
    let ghost es = views_of(ls@).subrange(from as int, ls@.len() as int);
    let ghost start = initial@;
    let n = ls.len();
    let mut items = initial;
    let mut j: usize = from;
    while j < n
        invariant
            from <= j <= n == ls@.len() <= isize::MAX,
            es == views_of(ls@).subrange(from as int, n as int),
            symbol_fold(es, *shndxs, *pages, start, j - from) == Ok::<ItemsView, &'static str>(
                items@,
            ),
            start == initial@,
            items.sections@.len() <= n + (j - from),
        decreases n - j,
    {
        assert(ls@[j as int]@ == es[j - from]);
        match parse_symbol_line(&ls[j]) {
            SymbolLine::Blank => {},
            SymbolLine::Unindexed => {},
            SymbolLine::Malformed(m) => {
                proof {
                    assert(symbol_fold(es, *shndxs, *pages, start, j + 1 - from) == Err::<
                        ItemsView,
                        &'static str,
                    >(m));
                    lemma_symbol_fold_err(es, *shndxs, *pages, start, j + 1 - from, n - from);
                    assert(symbol_fold(es, *shndxs, *pages, start, n - from) == Err::<
                        ItemsView,
                        &'static str,
                    >(m));
                    assert(symbol_fold(
                        views_of(ls@).subrange(from as int, ls@.len() as int),
                        *shndxs,
                        *pages,
                        start,
                        ls@.len() - from,
                    ) == Err::<ItemsView, &'static str>(m));
                }
                return Err(m);
            },
            SymbolLine::Entry { vaddr, size, ndx, global, name } => {
                match add_new_section(shndxs, &mut items, pages, ndx, name, size, vaddr, global) {
                    Err(m) => {
                        proof {
                            assert(symbol_fold(es, *shndxs, *pages, start, j + 1 - from) == Err::<
                                ItemsView,
                                &'static str,
                            >(m));
                            lemma_symbol_fold_err(
                                es,
                                *shndxs,
                                *pages,
                                start,
                                j + 1 - from,
                                n - from,
                            );
                        }
                        return Err(m);
                    },
                    Ok(()) => {},
                }
            },
        }
        j = j + 1;
    }
    Ok(items)
}

/// Parses the text of the running image's symbol table (the sections of the
/// output of `readelf`, then its symbol table): finds the four main
/// sections' indices and the unwinding sections, then makes a section of
/// each symbol in a main section, placed in the region that holds it, and
/// keeps the other symbols with their values.
pub fn parse_nano_core_symbol_text(text: &str, pages: &NanoCorePages) -> (r: Result<
    ParsedCrateItems,
    &'static str,
>)
    requires
        text@.len() <= isize::MAX,
    ensures
        match symbol_text_outcome(text@, *pages) {
            Ok(v) => r matches Ok(items) && items@ == v,
            Err(m) => r matches Err(e) && e == m,
        },
{
    let cs = chars_of(text);
    let ls = lines_of(&cs);
    proof {
        crate::symbol_text::lemma_lines_from_len(cs@, 0);
    }
    let h = scan_headers(&ls, pages)?;
    let text_shndx = match h.text_shndx {
        Some(x) => x,
        None => {
            return Err("parse_nano_core_symbol_file(): couldn't find .text section index");
        },
    };
    let rodata_shndx = match h.rodata_shndx {
        Some(x) => x,
        None => {
            return Err("parse_nano_core_symbol_file(): couldn't find .rodata section index");
        },
    };
    let data_shndx = match h.data_shndx {
        Some(x) => x,
        None => {
            return Err("parse_nano_core_symbol_file(): couldn't find .data section index");
        },
    };
    let bss_shndx = match h.bss_shndx {
        Some(x) => x,
        None => {
            return Err("parse_nano_core_symbol_file(): couldn't find .bss section index");
        },
    };
    let shndxs = MainShndx { text_shndx, rodata_shndx, data_shndx, bss_shndx };
    let from = symbol_entries_start(&ls);
    scan_symbols(&ls, from, &shndxs, pages, h.items)
}


/// `bytes` hold a C string: they end with a NUL byte, the only one.
pub open spec fn is_c_string(bytes: Seq<u8>) -> bool {
    &&& bytes.len() >= 1
    &&& bytes.last() == 0
    &&& forall|i: int| 0 <= i < bytes.len() - 1 ==> bytes[i] != 0
}

/// What parsing the symbol table file `bytes` gives: it must be a C string
/// whose characters are UTF-8.
pub open spec fn symbol_file_outcome(bytes: Seq<u8>, pages: NanoCorePages) -> Result<
    ItemsView,
    &'static str,
> {
    if !is_c_string(bytes) {
        Err("FromBytesWithNulError occurred when casting nano_core symbol file to CStr")
    } else if !valid_utf8(bytes.drop_last()) {
        Err("Utf8Error occurred when parsing nano_core symbols CStr")
    } else {
        symbol_text_outcome(decode_utf8(bytes.drop_last()), pages)
    }
}

/// Whether `bytes` hold a C string.
pub fn check_c_string(bytes: &[u8]) -> (r: bool)
    ensures
        r == is_c_string(bytes@),
{
    let n = bytes.len();
    if n == 0 || bytes[n - 1] != 0 {
        return false;
    }
    let mut i: usize = 0;
    while i < n - 1
        invariant
            1 <= n == bytes@.len(),
            i <= n - 1,
            forall|k: int| 0 <= k < i ==> bytes@[k] != 0,
        decreases n - 1 - i,
    {
        if bytes[i] == 0 {
            return false;
        }
        i = i + 1;
    }
    true
}

/// `core::str::from_utf8`: the bytes as a string slice, where they are valid
/// UTF-8, with the same bytes.
#[verifier::external_body]
pub(crate) fn str_from_utf8<'a>(bytes: &'a [u8]) -> (r: Option<&'a str>)
    ensures
        r is Some <==> valid_utf8(bytes@),
        r matches Some(s) ==> s.spec_bytes() == bytes@,
{
    match core::str::from_utf8(bytes) {
        Ok(s) => Some(s),
        Err(_) => None,
    }
}

/// The UTF-8 encoding of `cs` has no fewer bytes than `cs` has characters.
proof fn lemma_encoding_len(cs: Seq<char>)
    ensures
        cs.len() <= encode_utf8(cs).len(),
    decreases cs.len(),
{
    if cs.len() > 0 {
        lemma_encoding_len(cs.drop_first());
        assert(encode_scalar(cs[0] as u32).len() >= 1);
    }
}

/// Parses the running image's symbol table file, which holds a C string:
/// see `parse_nano_core_symbol_text`.
pub fn parse_nano_core_symbol_file(bytes: &[u8], pages: &NanoCorePages) -> (r: Result<
    ParsedCrateItems,
    &'static str,
>)
    requires
        bytes@.len() <= isize::MAX,
    ensures
        match symbol_file_outcome(bytes@, *pages) {
            Ok(v) => r matches Ok(items) && items@ == v,
            Err(m) => r matches Err(e) && e == m,
        },
{
    if !check_c_string(bytes) {
        return Err("FromBytesWithNulError occurred when casting nano_core symbol file to CStr");
    }
    let body = vstd::slice::slice_subrange(bytes, 0, bytes.len() - 1);
    assert(body@ =~= bytes@.drop_last());
    match str_from_utf8(body) {
        None => Err("Utf8Error occurred when parsing nano_core symbols CStr"),
        Some(text) => {
            proof {
                vstd::utf8::encode_utf8_decode_utf8(text@);
                lemma_encoding_len(text@);
            }
            parse_nano_core_symbol_text(text, pages)
        },
    }
}


/// The message for an image whose ELF file has no symbol table.
pub open spec fn stripped_message() -> Seq<char> {
    "cannot load nano_core: no symbol table found. Was file stripped?"@
}

/// `h` with the unwinding section of type `typ` described by the header
/// `sec` added: it lies in the read-only region.
pub open spec fn binary_unwind_section(
    h: HeaderView,
    sec: ElfSection,
    typ: SectionType,
    pages: NanoCorePages,
    cover_msg: Seq<char>,
) -> Result<HeaderView, Seq<char>> {
    let vaddr = sec.address as usize;
    if !is_canonical(vaddr) {
        Err(NON_CANONICAL_ADDRESS@)
    } else {
        match pages.rodata.offset_spec(vaddr) {
            None => Err(cover_msg),
            Some(off) => Ok(
                HeaderView {
                    items: with_section(
                        h.items,
                        SectionView {
                            typ,
                            name: typ.spec_name(),
                            pages: PagesKind::ReadOnly,
                            mapped_pages_offset: off,
                            virt_addr: vaddr,
                            size: sec.size as usize,
                            global: false,
                        },
                    ),
                    ..h
                },
            ),
        }
    }
}

/// The bits of the allocation, write and execute flags of a section header.
pub open spec fn load_flags(flags: u64) -> u64 {
    flags & 7
}

/// What section `shndx` of the ELF file `input`, with header `sec`, does to
/// the scan: a main section must have the flags of its kind; an unwinding
/// section is added; empty sections and all others are passed over.
#[verifier::opaque]
pub open spec fn binary_section_step(
    h: HeaderView,
    input: Seq<u8>,
    shndx: int,
    sec: ElfSection,
    pages: NanoCorePages,
) -> Result<HeaderView, Seq<char>> {
    if sec.size as usize == 0 {
        Ok(h)
    } else {
        match elf_section_name(input, shndx as u16) {
            None => Ok(h),
            Some(name) => if name == ".text"@ {
                if load_flags(sec.flags) != 6 {
                    Err(".text section had wrong flags!"@)
                } else {
                    Ok(HeaderView { text: Some(shndx as usize), ..h })
                }
            } else if name == ".rodata"@ {
                if load_flags(sec.flags) != 2 {
                    Err(".rodata section had wrong flags!"@)
                } else {
                    Ok(HeaderView { rodata: Some(shndx as usize), ..h })
                }
            } else if name == ".data"@ {
                if load_flags(sec.flags) != 3 {
                    Err(".data section had wrong flags!"@)
                } else {
                    Ok(HeaderView { data: Some(shndx as usize), ..h })
                }
            } else if name == ".bss"@ {
                if load_flags(sec.flags) != 3 {
                    Err(".bss section had wrong flags!"@)
                } else {
                    Ok(HeaderView { bss: Some(shndx as usize), ..h })
                }
            } else if name == ".gcc_except_table"@ {
                binary_unwind_section(
                    h,
                    sec,
                    SectionType::GccExceptTable,
                    pages,
                    "the nano_core .gcc_except_table section wasn't covered by the read-only mapped pages!"@,
                )
            } else if name == ".eh_frame"@ {
                binary_unwind_section(
                    h,
                    sec,
                    SectionType::EhFrame,
                    pages,
                    "the nano_core .eh_frame section wasn't covered by the read-only mapped pages!"@,
                )
            } else {
                Ok(h)
            },
        }
    }
}

/// The scan over the first `n` section headers `secs` of `input`.
pub open spec fn binary_header_fold(
    input: Seq<u8>,
    secs: Seq<ElfSection>,
    pages: NanoCorePages,
    n: int,
) -> Result<HeaderView, Seq<char>>
    decreases n,
{
    if n <= 0 {
        Ok(empty_header())
    } else {
        match binary_header_fold(input, secs, pages, n - 1) {
            Err(m) => Err(m),
            Ok(h) => binary_section_step(h, input, n - 1, secs[n - 1], pages),
        }
    }
}

proof fn lemma_binary_header_fold_err(
    input: Seq<u8>,
    secs: Seq<ElfSection>,
    pages: NanoCorePages,
    k: int,
    n: int,
)
    requires
        0 <= k <= n,
        binary_header_fold(input, secs, pages, k) is Err,
    ensures
        binary_header_fold(input, secs, pages, n) == binary_header_fold(input, secs, pages, k),
    decreases n - k,
{
    if k < n {
        lemma_binary_header_fold_err(input, secs, pages, k, n - 1);
    }
}

/// The indices of the four main sections of the ELF file, each of which must
/// have been found.
pub open spec fn binary_main_shndx(h: HeaderView) -> Result<MainShndx, Seq<char>> {
    if h.text is None {
        Err("couldn't find .text section in nano_core ELF"@)
    } else if h.rodata is None {
        Err("couldn't find .rodata section in nano_core ELF"@)
    } else if h.data is None {
        Err("couldn't find .data section in nano_core ELF"@)
    } else if h.bss is None {
        Err("couldn't find .bss section in nano_core ELF"@)
    } else {
        Ok(
            MainShndx {
                text_shndx: h.text->0,
                rodata_shndx: h.rodata->0,
                data_shndx: h.data->0,
                bss_shndx: h.bss->0,
            },
        )
    }
}

/// What the symbol table entry `e` does to the parsed items: a function or
/// object symbol with a valid binding is added under its demangled name.
pub open spec fn binary_symbol_step(
    items: ItemsView,
    input: Seq<u8>,
    e: SymbolEntry,
    sh: MainShndx,
    pages: NanoCorePages,
) -> Result<ItemsView, Seq<char>> {
    let b = binding_bits(e.info);
    let t = type_bits(e.info);
    if !(valid_binding_bits(b) && (t == 1 || t == 2)) {
        Ok(items)
    } else {
        match elf_string(input, e.name) {
            Err(m) => Err(m),
            Ok(name) => match add_section_outcome(
                items,
                sh,
                pages,
                e.shndx as usize,
                demangled(name).1,
                e.size as usize,
                e.value as usize,
                b == 1,
            ) {
                Ok(v) => Ok(v),
                Err(m) => Err(m@),
            },
        }
    }
}

/// The items after the first `n` symbol table entries `es`.
pub open spec fn binary_symbol_fold(
    input: Seq<u8>,
    es: Seq<SymbolEntry>,
    sh: MainShndx,
    pages: NanoCorePages,
    start: ItemsView,
    n: int,
) -> Result<ItemsView, Seq<char>>
    decreases n,
{
    if n <= 0 {
        Ok(start)
    } else {
        match binary_symbol_fold(input, es, sh, pages, start, n - 1) {
            Err(m) => Err(m),
            Ok(items) => binary_symbol_step(items, input, es[n - 1], sh, pages),
        }
    }
}

proof fn lemma_binary_symbol_fold_err(
    input: Seq<u8>,
    es: Seq<SymbolEntry>,
    sh: MainShndx,
    pages: NanoCorePages,
    start: ItemsView,
    k: int,
    n: int,
)
    requires
        0 <= k <= n,
        binary_symbol_fold(input, es, sh, pages, start, k) is Err,
    ensures
        binary_symbol_fold(input, es, sh, pages, start, n) == binary_symbol_fold(
            input,
            es,
            sh,
            pages,
            start,
            k,
        ),
    decreases n - k,
{
    if k < n {
        lemma_binary_symbol_fold_err(input, es, sh, pages, start, k, n - 1);
    }
}

/// What parsing the running image's ELF file `input` gives.
pub open spec fn binary_outcome(input: Seq<u8>, pages: NanoCorePages) -> Result<
    ItemsView,
    Seq<char>,
> {
    match elf_header_error(input) {
        Some(m) => Err(m),
        None => {
            let secs = iterated_sections(input);
            match first_symtab(secs) {
                None => Err(stripped_message()),
                Some(i) => if elf_symbol_count(input, i as u16) is None {
                    Err(stripped_message())
                } else {
                    match binary_header_fold(input, secs, pages, secs.len() as int) {
                        Err(m) => Err(m),
                        Ok(h) => match binary_main_shndx(h) {
                            Err(m) => Err(m),
                            Ok(sh) => {
                                let es = symbol_entries_read(input, i as u16);
                                binary_symbol_fold(input, es, sh, pages, h.items, es.len() as int)
                            },
                        },
                    }
                },
            }
        },
    }
}

/// Applies the section header `sec`, of index `shndx`, to the scan.
fn scan_binary_section(
    h: &mut HeaderScan,
    input: &[u8],
    shndx: usize,
    sec: &ElfSection,
    pages: &NanoCorePages,
) -> (r: Result<(), &'static str>)
    requires
        elf_readable(input@),
        shndx < SHN_LORESERVE,
        old(h).items.sections@.len() < usize::MAX,
    ensures
        match binary_section_step(old(h)@, input@, shndx as int, *sec, *pages) {
            Ok(v) => r is Ok && final(h)@ == v,
            Err(m) => r matches Err(e) && e@ == m,
        },
        final(h).items.sections@.len() <= old(h).items.sections@.len() + 1,
{
    reveal(binary_section_step);
    let size = sec.size as usize;
    if size == 0 {
        return Ok(());
    }
    let name = match section_name(input, shndx as u16) {
        None => {
            return Ok(());
        },
        Some(n) => n,
    };
    let flags = sec.flags & 7;
    let n = name.as_str();
    let (typ, cover_msg) = if str_eq(n, ".text") {
        if flags != 6 {
            return Err(".text section had wrong flags!");
        }
        h.text_shndx = Some(shndx);
        return Ok(());
    } else if str_eq(n, ".rodata") {
        if flags != 2 {
            return Err(".rodata section had wrong flags!");
        }
        h.rodata_shndx = Some(shndx);
        return Ok(());
    } else if str_eq(n, ".data") {
        if flags != 3 {
            return Err(".data section had wrong flags!");
        }
        h.data_shndx = Some(shndx);
        return Ok(());
    } else if str_eq(n, ".bss") {
        if flags != 3 {
            return Err(".bss section had wrong flags!");
        }
        h.bss_shndx = Some(shndx);
        return Ok(());
    } else if str_eq(n, ".gcc_except_table") {
        (
            SectionType::GccExceptTable,
            "the nano_core .gcc_except_table section wasn't covered by the read-only mapped pages!",
        )
    } else if str_eq(n, ".eh_frame") {
        (
            SectionType::EhFrame,
            "the nano_core .eh_frame section wasn't covered by the read-only mapped pages!",
        )
    } else {
        return Ok(());
    };
    let vaddr = virtual_address(sec.address as usize)?;
    let off = match pages.rodata.offset_of_address(vaddr) {
        Some(o) => o,
        None => {
            return Err(cover_msg);
        },
    };
    push_section(
        &mut h.items,
        NanoCoreSection {
            typ,
            name: typ.name().to_owned(),
            pages: PagesKind::ReadOnly,
            mapped_pages_offset: off,
            virt_addr: vaddr,
            size,
            global: false,
        },
    );
    Ok(())
}

/// Scans all the section headers `secs` of `input`.
#[verifier::spinoff_prover]
fn scan_binary_sections(input: &[u8], secs: &Vec<ElfSection>, pages: &NanoCorePages) -> (r: Result<
    HeaderScan,
    &'static str,
>)
    requires
        elf_readable(input@),
        secs@.len() <= SHN_LORESERVE,
    ensures
        match binary_header_fold(input@, secs@, *pages, secs@.len() as int) {
            Ok(v) => r matches Ok(h) && h@ == v && h.items.sections@.len() <= secs@.len(),
            Err(m) => r matches Err(e) && e@ == m,
        },
{
    let mut h = HeaderScan {
        text_shndx: None,
        rodata_shndx: None,
        data_shndx: None,
        bss_shndx: None,
        items: ParsedCrateItems::empty(),
    };
    let n = secs.len();
    let mut i: usize = 0;
    while i < n
        invariant
            elf_readable(input@),
            n == secs@.len() <= SHN_LORESERVE,
            i <= n,
            binary_header_fold(input@, secs@, *pages, i as int) == Ok::<HeaderView, Seq<char>>(h@),
            h.items.sections@.len() <= i,
        decreases n - i,
    {
        match scan_binary_section(&mut h, input, i, &secs[i], pages) {
            Err(m) => {
                proof {
                    lemma_binary_header_fold_err(input@, secs@, *pages, i + 1, n as int);
                }
                return Err(m);
            },
            Ok(()) => {},
        }
        i = i + 1;
    }
    Ok(h)
}

/// Applies the symbol table entries `es` of `input` to `initial`.
#[verifier::spinoff_prover]
fn scan_binary_symbols(
    input: &[u8],
    es: &Vec<SymbolEntry>,
    shndxs: &MainShndx,
    pages: &NanoCorePages,
    initial: ParsedCrateItems,
) -> (r: Result<ParsedCrateItems, &'static str>)
    requires
        names_readable(input@, es@),
        elf_readable(input@),
        initial.sections@.len() <= SHN_LORESERVE,
        es@.len() <= isize::MAX,
    ensures
        match binary_symbol_fold(input@, es@, *shndxs, *pages, initial@, es@.len() as int) {
            Ok(v) => r matches Ok(it) && it@ == v,
            Err(m) => r matches Err(e) && e@ == m,
        },
{
    let ghost start = initial@;
    let n = es.len();
    let mut items = initial;
    let mut j: usize = 0;
    while j < n
        invariant
            names_readable(input@, es@),
            elf_readable(input@),
            j <= n == es@.len() <= isize::MAX,
            start == initial@,
            binary_symbol_fold(input@, es@, *shndxs, *pages, start, j as int) == Ok::<
                ItemsView,
                Seq<char>,
            >(items@),
            items.sections@.len() <= SHN_LORESERVE + j,
        decreases n - j,
    {
        let e = es[j];
        let b = e.info >> 4;
        let t = e.info & 0xf;
        if (b <= 2 || (10 <= b && b <= 15)) && (t == 1 || t == 2) {
            let name = match string_at(input, e.name) {
                Ok(s) => s,
                Err(m) => {
                    proof {
                        lemma_binary_symbol_fold_err(input@, es@, *shndxs, *pages, start, j + 1, n as int);
                    }
                    return Err(m);
                },
            };
            let (_, with_hash) = demangle_forms(name.as_str());
            match add_new_section(
                shndxs,
                &mut items,
                pages,
                e.shndx as usize,
                with_hash,
                e.size as usize,
                e.value as usize,
                b == 1,
            ) {
                Ok(()) => {},
                Err(m) => {
                    proof {
                        lemma_binary_symbol_fold_err(input@, es@, *shndxs, *pages, start, j + 1, n as int);
                    }
                    return Err(m);
                },
            }
        }
        j = j + 1;
    }
    Ok(items)
}

/// Parses the running image's ELF file: finds its symbol table, the four
/// main sections (which must have the flags of their kind) and the unwinding
/// sections, then makes a section of each function or object symbol that
/// lies in a main section, under its demangled name, and keeps the other
/// symbols with their values.
#[verifier::spinoff_prover]
#[verifier::rlimit(40)]
pub fn parse_nano_core_binary(input: &[u8], pages: &NanoCorePages) -> (r: Result<
    ParsedCrateItems,
    &'static str,
>)
    requires
        elf_readable(input@),
        input@.len() <= isize::MAX,
    ensures
        match binary_outcome(input@, *pages) {
            Ok(v) => r matches Ok(items) && items@ == v,
            Err(m) => r matches Err(e) && e@ == m,
        },
{
    match header_error(input) {
        Some(e) => {
            return Err(e);
        },
        None => {},
    }
    let secs = read_section_headers(input);
    let symtab = match find_symbol_table(input, &secs) {
        Ok(i) => i,
        Err(_) => {
            return Err("cannot load nano_core: no symbol table found. Was file stripped?");
        },
    };
    let h = scan_binary_sections(input, &secs, pages)?;
    let text_shndx = match h.text_shndx {
        Some(x) => x,
        None => {
            return Err("couldn't find .text section in nano_core ELF");
        },
    };
    let rodata_shndx = match h.rodata_shndx {
        Some(x) => x,
        None => {
            return Err("couldn't find .rodata section in nano_core ELF");
        },
    };
    let data_shndx = match h.data_shndx {
        Some(x) => x,
        None => {
            return Err("couldn't find .data section in nano_core ELF");
        },
    };
    let bss_shndx = match h.bss_shndx {
        Some(x) => x,
        None => {
            return Err("couldn't find .bss section in nano_core ELF");
        },
    };
    let shndxs = MainShndx { text_shndx, rodata_shndx, data_shndx, bss_shndx };
    let entries = read_symbol_entries(input, symtab);
    proof {
        lemma_entries_names_readable(input@, symtab, entries@);
    }
    scan_binary_symbols(input, &entries, &shndxs, pages, h.items)
}


/// What parsing the running image's file gives, by the file's extension: a
/// `sym` file is its symbol table, a `bin` file its ELF file.
pub open spec fn nano_core_file_outcome(
    extension: Option<Seq<char>>,
    bytes: Seq<u8>,
    pages: NanoCorePages,
) -> Result<ItemsView, Seq<char>> {
    if extension == Some("sym"@) {
        match symbol_file_outcome(bytes, pages) {
            Ok(v) => Ok(v),
            Err(m) => Err(m@),
        }
    } else if extension == Some("bin"@) {
        binary_outcome(bytes, pages)
    } else {
        Err("nano_core object file had unexpected file extension. Expected \".bin\" or \".sym\""@)
    }
}

/// Parses the running image's file, a symbol table or an ELF file as its
/// extension says.
pub fn parse_nano_core_file(extension: Option<&str>, bytes: &[u8], pages: &NanoCorePages) -> (r:
    Result<ParsedCrateItems, &'static str>)
    requires
        bytes@.len() <= isize::MAX,
        (extension matches Some(x) && x@ == "bin"@) ==> elf_readable(bytes@),
    ensures
        match nano_core_file_outcome(
            match extension {
                Some(x) => Some(x@),
                None => None,
            },
            bytes@,
            *pages,
        ) {
            Ok(v) => r matches Ok(items) && items@ == v,
            Err(m) => r matches Err(e) && e@ == m,
        },
{
    match extension {
        Some(x) => {
            if str_eq(x, "sym") {
                parse_nano_core_symbol_file(bytes, pages)
            } else if str_eq(x, "bin") {
                parse_nano_core_binary(bytes, pages)
            } else {
                Err("nano_core object file had unexpected file extension. Expected \".bin\" or \".sym\"")
            }
        },
        None => Err(
            "nano_core object file had unexpected file extension. Expected \".bin\" or \".sym\"",
        ),
    }
}

/// Parses the running image's file as `parse_nano_core_file` does, after
/// testing that an ELF file (extension `bin`) can be read safely; one that
/// cannot is refused with `UNREADABLE_ELF_FILE`.
pub fn parse_checked_nano_core_file(extension: Option<&str>, bytes: &[u8], pages: &NanoCorePages) -> (r: Result<
    ParsedCrateItems,
    &'static str,
>)
    requires
        bytes@.len() <= isize::MAX,
    ensures
        ((extension matches Some(x) && x@ == "bin"@) && !elf_readable(bytes@)) ==> (r matches Err(e) && e@
            == UNREADABLE_ELF_FILE@),
        !((extension matches Some(x) && x@ == "bin"@) && !elf_readable(bytes@)) ==> match nano_core_file_outcome(
            match extension {
                Some(x) => Some(x@),
                None => None,
            },
            bytes@,
            *pages,
        ) {
            Ok(v) => r matches Ok(items) && items@ == v,
            Err(m) => r matches Err(e) && e@ == m,
        },
{
    let is_bin = match extension {
        Some(x) => str_eq(x, "bin"),
        None => false,
    };
    if is_bin && !check_elf_readable(bytes) {
        return Err(UNREADABLE_ELF_FILE);
    }
    parse_nano_core_file(extension, bytes, pages)
}

/// The region of the running image that a page group names.
pub open spec fn region_of(pages: NanoCorePages, kind: PagesKind) -> PagesRange {
    match kind {
        PagesKind::Text => pages.text,
        PagesKind::ReadOnly => pages.rodata,
        PagesKind::ReadWrite => pages.data,
    }
}

/// The positions, in order, of the first `n` sections that are global.
pub open spec fn global_indices(secs: Seq<SectionView>, n: int) -> Seq<usize>
    decreases n,
{
    if n <= 0 {
        Seq::empty()
    } else if secs[n - 1].global {
        global_indices(secs, n - 1).push((n - 1) as usize)
    } else {
        global_indices(secs, n - 1)
    }
}

/// The positions, in order, of the first `n` sections that are `.data` or `.bss`.
pub open spec fn data_indices(secs: Seq<SectionView>, n: int) -> Seq<usize>
    decreases n,
{
    if n <= 0 {
        Seq::empty()
    } else if secs[n - 1].typ == SectionType::Data || secs[n - 1].typ == SectionType::Bss {
        data_indices(secs, n - 1).push((n - 1) as usize)
    } else {
        data_indices(secs, n - 1)
    }
}

/// Each section lies in the region of its page group at its offset there,
/// and the global and data section lists hold exactly the positions of the
/// global and of the `.data` and `.bss` sections, in order.
pub open spec fn items_consistent(v: ItemsView, pages: NanoCorePages) -> bool {
    &&& forall|i: int|
        0 <= i < v.sections.len() ==> region_of(pages, (#[trigger] v.sections[i]).pages).offset_spec(v.sections[i].virt_addr)
            == Some(v.sections[i].mapped_pages_offset)
    &&& v.global_sections == global_indices(v.sections, v.sections.len() as int)
    &&& v.data_sections == data_indices(v.sections, v.sections.len() as int)
}

proof fn lemma_indices_prefix(secs: Seq<SectionView>, s: SectionView, n: int)
    requires
        0 <= n <= secs.len(),
    ensures
        global_indices(secs.push(s), n) == global_indices(secs, n),
        data_indices(secs.push(s), n) == data_indices(secs, n),
    decreases n,
{
    if n > 0 {
        lemma_indices_prefix(secs, s, n - 1);
    }
}

proof fn lemma_with_section_consistent(v: ItemsView, s: SectionView, pages: NanoCorePages)
    requires
        items_consistent(v, pages),
        region_of(pages, s.pages).offset_spec(s.virt_addr) == Some(s.mapped_pages_offset),
    ensures
        items_consistent(with_section(v, s), pages),
{
    let w = with_section(v, s);
    lemma_indices_prefix(v.sections, s, v.sections.len() as int);
    assert(w.sections.drop_last() =~= v.sections);
    assert forall|i: int| 0 <= i < w.sections.len() implies region_of(pages, (#[trigger] w.sections[i]).pages).offset_spec(
        w.sections[i].virt_addr,
    ) == Some(w.sections[i].mapped_pages_offset) by {
        if i < v.sections.len() {
            assert(w.sections[i] == v.sections[i]);
        }
    }
}

proof fn lemma_symbol_fold_consistent(
    es: Seq<Seq<char>>,
    sh: MainShndx,
    pages: NanoCorePages,
    start: ItemsView,
    n: int,
)
    requires
        items_consistent(start, pages),
    ensures
        symbol_fold(es, sh, pages, start, n) matches Ok(v) ==> items_consistent(v, pages),
    decreases n,
{
    if n > 0 {
        lemma_symbol_fold_consistent(es, sh, pages, start, n - 1);
        match symbol_fold(es, sh, pages, start, n - 1) {
            Err(_) => {},
            Ok(items) => {
                match symbol_line(es[n - 1]) {
                    SymbolLineView::Entry { vaddr, size, ndx, global, name } => {
                        if ndx == sh.text_shndx || ndx == sh.rodata_shndx || ndx == sh.data_shndx || ndx == sh.bss_shndx {
                            let kind = if ndx == sh.text_shndx {
                                PagesKind::Text
                            } else if ndx == sh.rodata_shndx {
                                PagesKind::ReadOnly
                            } else {
                                PagesKind::ReadWrite
                            };
                            let typ = if ndx == sh.text_shndx {
                                SectionType::Text
                            } else if ndx == sh.rodata_shndx {
                                SectionType::Rodata
                            } else if ndx == sh.data_shndx {
                                SectionType::Data
                            } else {
                                SectionType::Bss
                            };
                            match region_of(pages, kind).offset_spec(vaddr) {
                                None => {},
                                Some(off) => {
                                    lemma_with_section_consistent(
                                        items,
                                        SectionView {
                                            typ,
                                            name,
                                            pages: kind,
                                            mapped_pages_offset: off,
                                            virt_addr: vaddr,
                                            size,
                                            global,
                                        },
                                        pages,
                                    );
                                },
                            }
                        }
                    },
                    _ => {},
                }
            },
        }
    }
}

proof fn lemma_header_fold_consistent(ls: Seq<Seq<char>>, pages: NanoCorePages, n: int)
    ensures
        header_fold(ls, pages, n) matches Ok(h) ==> items_consistent(h.items, pages),
    decreases n,
{
    reveal(header_step);
    if n <= 0 {
        assert(global_indices(Seq::<SectionView>::empty(), 0) =~= Seq::<usize>::empty());
    } else {
        lemma_header_fold_consistent(ls, pages, n - 1);
        match header_fold(ls, pages, n - 1) {
            Err(_) => {},
            Ok(h) => {
                let line = trim(ls[n - 1]);
                if !(line.len() == 0) && !(contains(line, ".text "@) && contains(line, "PROGBITS"@)) && !(contains(
                    line,
                    ".data "@,
                ) && contains(line, "PROGBITS"@)) && !(contains(line, ".rodata "@) && contains(line, "PROGBITS"@))
                    && !(contains(line, ".bss "@) && contains(line, "NOBITS"@)) {
                    let (pat, typ) = if contains(line, ".eh_frame "@) {
                        (".eh_frame "@, SectionType::EhFrame)
                    } else {
                        (".gcc_except_table "@, SectionType::GccExceptTable)
                    };
                    if contains(line, ".eh_frame "@) || contains(line, ".gcc_except_table "@) {
                        let start = match first_occurrence(line, pat) {
                            Some(s) => s,
                            None => 0,
                        };
                        match section_vaddr_size(line.subrange(start, line.len() as int)) {
                            None => {},
                            Some((vaddr, size)) => match pages.rodata.offset_spec(vaddr) {
                                None => {},
                                Some(off) => {
                                    lemma_with_section_consistent(
                                        h.items,
                                        SectionView {
                                            typ,
                                            name: typ.spec_name(),
                                            pages: PagesKind::ReadOnly,
                                            mapped_pages_offset: off,
                                            virt_addr: vaddr,
                                            size,
                                            global: false,
                                        },
                                        pages,
                                    );
                                },
                            },
                        }
                    }
                }
            },
        }
    }
}

/// Every section read from the running image's symbol table lies in the
/// region of its page group, at the offset of its address there, and the
/// lists of global and of data sections name exactly the global and the
/// `.data` and `.bss` sections, in order.
pub proof fn law_symbol_text_items_consistent(t: Seq<char>, pages: NanoCorePages)
    ensures
        symbol_text_outcome(t, pages) matches Ok(v) ==> items_consistent(v, pages),
{
    let ls = lines(t);
    lemma_header_fold_consistent(ls, pages, ls.len() as int);
    match header_fold(ls, pages, ls.len() as int) {
        Err(_) => {},
        Ok(h) => match main_shndx(h) {
            Err(_) => {},
            Ok(sh) => {
                let es = symbol_entries(ls);
                lemma_symbol_fold_consistent(es, sh, pages, h.items, es.len() as int);
            },
        },
    }
}

proof fn lemma_add_section_consistent(
    items: ItemsView,
    sh: MainShndx,
    pages: NanoCorePages,
    ndx: usize,
    name: Seq<char>,
    size: usize,
    vaddr: usize,
    global: bool,
)
    requires
        items_consistent(items, pages),
    ensures
        add_section_outcome(items, sh, pages, ndx, name, size, vaddr, global) matches Ok(v) ==> items_consistent(
            v,
            pages,
        ),
{
    if ndx == sh.text_shndx || ndx == sh.rodata_shndx || ndx == sh.data_shndx || ndx == sh.bss_shndx {
        let kind = if ndx == sh.text_shndx {
            PagesKind::Text
        } else if ndx == sh.rodata_shndx {
            PagesKind::ReadOnly
        } else {
            PagesKind::ReadWrite
        };
        let typ = if ndx == sh.text_shndx {
            SectionType::Text
        } else if ndx == sh.rodata_shndx {
            SectionType::Rodata
        } else if ndx == sh.data_shndx {
            SectionType::Data
        } else {
            SectionType::Bss
        };
        match region_of(pages, kind).offset_spec(vaddr) {
            None => {},
            Some(off) => {
                lemma_with_section_consistent(
                    items,
                    SectionView { typ, name, pages: kind, mapped_pages_offset: off, virt_addr: vaddr, size, global },
                    pages,
                );
            },
        }
    }
}

proof fn lemma_binary_header_fold_consistent(input: Seq<u8>, secs: Seq<ElfSection>, pages: NanoCorePages, n: int)
    ensures
        binary_header_fold(input, secs, pages, n) matches Ok(h) ==> items_consistent(h.items, pages),
    decreases n,
{
    reveal(binary_section_step);
    if n <= 0 {
        assert(global_indices(Seq::<SectionView>::empty(), 0) =~= Seq::<usize>::empty());
    } else {
        lemma_binary_header_fold_consistent(input, secs, pages, n - 1);
        match binary_header_fold(input, secs, pages, n - 1) {
            Err(_) => {},
            Ok(h) => {
                let sec = secs[n - 1];
                let vaddr = sec.address as usize;
                match pages.rodata.offset_spec(vaddr) {
                    None => {},
                    Some(off) => {
                        lemma_with_section_consistent(
                            h.items,
                            SectionView {
                                typ: SectionType::GccExceptTable,
                                name: SectionType::GccExceptTable.spec_name(),
                                pages: PagesKind::ReadOnly,
                                mapped_pages_offset: off,
                                virt_addr: vaddr,
                                size: sec.size as usize,
                                global: false,
                            },
                            pages,
                        );
                        lemma_with_section_consistent(
                            h.items,
                            SectionView {
                                typ: SectionType::EhFrame,
                                name: SectionType::EhFrame.spec_name(),
                                pages: PagesKind::ReadOnly,
                                mapped_pages_offset: off,
                                virt_addr: vaddr,
                                size: sec.size as usize,
                                global: false,
                            },
                            pages,
                        );
                    },
                }
            },
        }
    }
}

proof fn lemma_binary_symbol_fold_consistent(
    input: Seq<u8>,
    es: Seq<SymbolEntry>,
    sh: MainShndx,
    pages: NanoCorePages,
    start: ItemsView,
    n: int,
)
    requires
        items_consistent(start, pages),
    ensures
        binary_symbol_fold(input, es, sh, pages, start, n) matches Ok(v) ==> items_consistent(v, pages),
    decreases n,
{
    if n > 0 {
        lemma_binary_symbol_fold_consistent(input, es, sh, pages, start, n - 1);
        match binary_symbol_fold(input, es, sh, pages, start, n - 1) {
            Err(_) => {},
            Ok(items) => {
                let e = es[n - 1];
                match elf_string(input, e.name) {
                    Err(_) => {},
                    Ok(name) => {
                        lemma_add_section_consistent(
                            items,
                            sh,
                            pages,
                            e.shndx as usize,
                            demangled(name).1,
                            e.size as usize,
                            e.value as usize,
                            binding_bits(e.info) == 1,
                        );
                    },
                }
            },
        }
    }
}

/// Every section read from the running image's ELF file lies in the region
/// of its page group, at the offset of its address there, and the lists of
/// global and of data sections name exactly the global and the `.data` and
/// `.bss` sections, in order.
pub proof fn law_binary_items_consistent(input: Seq<u8>, pages: NanoCorePages)
    ensures
        binary_outcome(input, pages) matches Ok(v) ==> items_consistent(v, pages),
{
    let secs = iterated_sections(input);
    lemma_binary_header_fold_consistent(input, secs, pages, secs.len() as int);
    match binary_header_fold(input, secs, pages, secs.len() as int) {
        Err(_) => {},
        Ok(h) => match binary_main_shndx(h) {
            Err(_) => {},
            Ok(sh) => match first_symtab(secs) {
                None => {},
                Some(i) => {
                    let es = symbol_entries_read(input, i as u16);
                    lemma_binary_symbol_fold_consistent(input, es, sh, pages, h.items, es.len() as int);
                },
            },
        },
    }
}

} // verus!
