//! The parts of an ELF object file that the crate loader reads: section
//! headers, section names, symbol table entries and strings. The parsing is
//! done by `xmas_elf`; each value it yields is named as a function of the
//! file's bytes, so two reads of the same part of the same file agree.

use vstd::prelude::*;
use xmas_elf::sections::ShType::{NoBits, Null, OsSpecific, ProcessorSpecific, ProgBits, ShLib, SymTab, User};
use xmas_elf::symbol_table::Entry;
use xmas_elf::sections::SectionData;
use xmas_elf::ElfFile;
use zerocopy::IntoBytes;
use vstd::utf8::valid_utf8;

verus! {

/// Flag of a section that occupies memory when the file is loaded.
pub const SHF_ALLOC: u64 = 0x2;
/// Flag of a writable section.
pub const SHF_WRITE: u64 = 0x1;
/// Flag of a section that holds executable instructions.
pub const SHF_EXECINSTR: u64 = 0x4;
/// Flag of a section that holds thread-local storage.
pub const SHF_TLS: u64 = 0x400;
/// The first reserved section index.
pub const SHN_LORESERVE: u16 = 0xff00;

/// The type of a section header, as far as the loader tells types apart.
#[derive(Debug, Clone, Copy, PartialEq, Eq, Structural)]
pub enum SectionKind {
    /// `SHT_NULL`
    Null,
    /// `SHT_PROGBITS`: data held in the file
    ProgBits,
    /// `SHT_NOBITS`: data that occupies no space in the file, such as `.bss`
    NoBits,
    /// `SHT_SYMTAB`: the symbol table
    SymTab,
    /// `SHT_SHLIB` or an OS-, processor- or user-specific type, whose data
    /// is handed out as raw bytes
    RawData,
    /// Any other known type, whose data is handed out in a structured form
    Structured,
    /// A type value that is not valid
    Invalid,
}

impl SectionKind {
    /// A number for each kind, in the order of declaration.
    pub open spec fn code(self) -> u8 {
        match self {
            SectionKind::Null => 0,
            SectionKind::ProgBits => 1,
            SectionKind::NoBits => 2,
            SectionKind::SymTab => 3,
            SectionKind::RawData => 4,
            SectionKind::Structured => 5,
            SectionKind::Invalid => 6,
        }
    }
}

/// The fields of a section header that the loader reads.
#[derive(Debug, Clone, Copy, PartialEq, Eq, Structural)]
pub struct ElfSection {
    pub flags: u64,
    pub size: u64,
    pub align: u64,
    pub offset: u64,
    /// The address of the section in memory.
    pub address: u64,
    pub kind: SectionKind,
}

/// The section header fields (flags, size, alignment, file offset, address,
/// kind code) of section `index` of the ELF file `input`, if the file and the
/// header parse.
pub uninterp spec fn elf_section_fields(input: Seq<u8>, index: u16) -> Option<(u64, u64, u64, u64, u64, u8)>;

/// The number of section headers that the ELF file's header announces.
pub uninterp spec fn elf_section_count(input: Seq<u8>) -> Option<u16>;

/// The name of section `index` in the section header string table.
pub uninterp spec fn elf_section_name(input: Seq<u8>, index: u16) -> Option<Seq<char>>;

/// The number of entries of the symbol table held in section `index`.
pub uninterp spec fn elf_symbol_count(input: Seq<u8>, index: u16) -> Option<usize>;

/// Entry `i` (name index, info byte, section index, value, size) of the
/// symbol table held in section `index`.
pub uninterp spec fn elf_symbol_entry(input: Seq<u8>, index: u16, i: int) -> Option<(u32, u8, u16, u64, u64)>;

/// The string at `index` of the file's `.strtab` section, or the message
/// with which reading it fails.
pub uninterp spec fn elf_string(input: Seq<u8>, index: u32) -> Result<Seq<char>, Seq<char>>;

/// The object file type field of the ELF header.
pub uninterp spec fn elf_file_type(input: Seq<u8>) -> Option<u16>;

/// The message with which `xmas_elf` refuses the ELF header of `input`, if it does.
pub uninterp spec fn elf_header_error(input: Seq<u8>) -> Option<Seq<char>>;

/// The number of program headers that the ELF file's header announces.
pub uninterp spec fn elf_program_count(input: Seq<u8>) -> Option<u16>;

/// Program header `index` of the ELF file: whether its type is `LOAD`, its
/// flags, virtual address, size in memory and file offset; `None` where
/// the file or the header does not parse.
pub uninterp spec fn elf_program_header(input: Seq<u8>, index: u16) -> Option<(bool, u32, u64, u64, u64)>;

/// The entry point field of the ELF header.
pub uninterp spec fn elf_entry_point(input: Seq<u8>) -> Option<u64>;

/// The little-endian value of the `n` bytes of `s` from `i` on (0 past the end).
pub open spec fn le(s: Seq<u8>, i: int, n: nat) -> int
    decreases n,
{
    if n == 0 {
        0
    } else {
        (if 0 <= i < s.len() {
            s[i] as int
        } else {
            0
        }) + 256 * le(s, i + 1, (n - 1) as nat)
    }
}

/// Whether the file is 64-bit (class byte 2); else, where its header parses, 32-bit.
pub open spec fn is_elf64(s: Seq<u8>) -> bool {
    s[4] == 2
}

/// Whether `xmas_elf` parses the ELF header of `s`: the file holds both
/// parts of the header, starts with the magic number and has class 1 or 2.
pub open spec fn header_parses(s: Seq<u8>) -> bool {
    &&& s.len() >= 16
    &&& s[0] == 0x7f && s[1] == 0x45 && s[2] == 0x4c && s[3] == 0x46
    &&& (s[4] == 1 || s[4] == 2)
    &&& s.len() >= if is_elf64(s) { 64int } else { 52int }
}

/// The alignment of the file's words: 8 bytes for 64-bit files, 4 for 32-bit.
pub open spec fn word_align(s: Seq<u8>) -> int {
    if is_elf64(s) { 8 } else { 4 }
}

/// A header field at `off64` (64-bit files) or `off32` (32-bit files) of
/// `n64` or `n32` bytes.
pub open spec fn field(s: Seq<u8>, base: int, off64: int, n64: nat, off32: int, n32: nat) -> int {
    if is_elf64(s) {
        le(s, base + off64, n64)
    } else {
        le(s, base + off32, n32)
    }
}

/// The section header table's offset, entry size, entry count and the index
/// of the section name string table.
pub open spec fn sh_offset_field(s: Seq<u8>) -> int { field(s, 0, 40, 8, 32, 4) }
pub open spec fn sh_entsize_field(s: Seq<u8>) -> int { field(s, 0, 58, 2, 46, 2) }
pub open spec fn sh_count_field(s: Seq<u8>) -> int { field(s, 0, 60, 2, 48, 2) }
pub open spec fn sh_strndx_field(s: Seq<u8>) -> int { field(s, 0, 62, 2, 50, 2) }

/// The program header table's offset, entry size and entry count.
pub open spec fn ph_offset_field(s: Seq<u8>) -> int { field(s, 0, 32, 8, 28, 4) }
pub open spec fn ph_entsize_field(s: Seq<u8>) -> int { field(s, 0, 54, 2, 42, 2) }
pub open spec fn ph_count_field(s: Seq<u8>) -> int { field(s, 0, 56, 2, 44, 2) }

/// Where section header `i` starts.
pub open spec fn sh_start(s: Seq<u8>, i: int) -> int {
    sh_offset_field(s) + i * sh_entsize_field(s)
}

/// Whether reading section header `i` neither overflows nor fails an
/// assertion: its place fits the address space and, where the file holds
/// it, the entry is large enough for a header and aligned.
pub open spec fn sh_read_safe(s: Seq<u8>, i: int) -> bool {
    let start = sh_start(s, i);
    &&& 0 <= i < SHN_LORESERVE
    &&& start + sh_entsize_field(s) <= usize::MAX
    &&& start + sh_entsize_field(s) <= s.len() ==> sh_entsize_field(s) >= (if is_elf64(s) { 64int } else { 40int })
        && start % word_align(s) == 0
}

/// Whether section header `i` is read (its entry lies in the file).
pub open spec fn sh_parses(s: Seq<u8>, i: int) -> bool {
    sh_read_safe(s, i) && sh_start(s, i) + sh_entsize_field(s) <= s.len()
}

/// Fields of section header `i`: name index, type, file offset and size.
pub open spec fn sec_name_field(s: Seq<u8>, i: int) -> int { le(s, sh_start(s, i), 4) }
pub open spec fn sec_type_field(s: Seq<u8>, i: int) -> int { le(s, sh_start(s, i) + 4, 4) }
pub open spec fn sec_offset_field(s: Seq<u8>, i: int) -> int { field(s, sh_start(s, i), 24, 8, 16, 4) }
pub open spec fn sec_size_field(s: Seq<u8>, i: int) -> int { field(s, sh_start(s, i), 32, 8, 20, 4) }

/// Whether `xmas_elf` knows the section type `t`.
pub open spec fn known_type(t: int) -> bool {
    (0 <= t <= 11) || (14 <= t <= 18) || (0x6000_0000 <= t <= 0xFFFF_FFFF)
}

/// Whether the bytes of `t` hold a zero byte, and those before the first
/// one are UTF-8: a string that `zero::read_str` reads without panicking.
pub open spec fn c_str_ok(t: Seq<u8>) -> bool {
    exists|k: int|
        0 <= k < t.len() && t[k] == 0 && (forall|j: int| 0 <= j < k ==> t[j] != 0) && valid_utf8(
            #[trigger] t.subrange(0, k),
        )
}

/// The bytes of `t` before its first zero byte.
pub open spec fn c_str_bytes(t: Seq<u8>) -> Seq<u8> {
    let k = choose|k: int| 0 <= k < t.len() && t[k] == 0 && (forall|j: int| 0 <= j < k ==> t[j] != 0);
    t.subrange(0, k)
}

/// Whether reading the name of section `i` does not panic: a section of a
/// known type other than NULL needs the section name string table's header
/// to be safe to read and, where that table starts in the file, its name to
/// lie within the file as a zero-terminated UTF-8 string.
pub open spec fn name_read_safe(s: Seq<u8>, i: int) -> bool {
    let t = sec_type_field(s, i);
    let n = sh_strndx_field(s);
    known_type(t) && t != 0 ==> {
        &&& sh_read_safe(s, n)
        &&& sh_parses(s, n) && sec_offset_field(s, n) <= s.len() ==> {
            let off = sec_offset_field(s, n);
            &&& off + sec_name_field(s, i) <= s.len()
            &&& c_str_ok(s.subrange(off + sec_name_field(s, i), s.len() as int))
        }
    }
}

/// Whether the data of section `i` lies in the file.
pub open spec fn data_in_file(s: Seq<u8>, i: int) -> bool {
    sec_offset_field(s, i) + sec_size_field(s, i) <= s.len()
}

/// Whether the data of section `i` is an array of `elem`-byte entries
/// aligned to `align` in the file.
pub open spec fn data_array(s: Seq<u8>, i: int, elem: int, align: int) -> bool {
    &&& data_in_file(s, i)
    &&& sec_size_field(s, i) % elem == 0
    &&& sec_offset_field(s, i) % align == 0
}

/// Whether `SectionHeader::get_data` on section `i` does not panic: the
/// data lies in the file and, for the types read as arrays or structures,
/// has their size and alignment.
pub open spec fn data_read_safe(s: Seq<u8>, i: int) -> bool {
    let t = sec_type_field(s, i);
    let w = word_align(s);
    let e64 = is_elf64(s);
    if !known_type(t) || t == 0 || t == 8 {
        true
    } else if t == 2 || t == 11 {
        data_array(s, i, if e64 { 24 } else { 16 }, w)
    } else if t == 4 {
        data_array(s, i, if e64 { 24 } else { 12 }, w)
    } else if t == 9 || t == 6 {
        data_array(s, i, if e64 { 16 } else { 8 }, w)
    } else if 14 <= t <= 16 {
        data_array(s, i, w, w)
    } else if t == 18 {
        data_array(s, i, 4, 4)
    } else if t == 17 {
        data_in_file(s, i) && sec_size_field(s, i) >= 4 && (sec_size_field(s, i) - 4) % 4 == 0 && (
        sec_offset_field(s, i) + 4) % 4 == 0
    } else if t == 7 {
        data_in_file(s, i) && (e64 ==> sec_size_field(s, i) >= 12 && sec_offset_field(s, i) % 4 == 0)
    } else if t == 5 {
        data_in_file(s, i) && sec_size_field(s, i) >= 12 && sec_offset_field(s, i) % 4 == 0
    } else {
        data_in_file(s, i)
    }
}

/// Whether reading program header `i` does not panic.
pub open spec fn ph_read_safe(s: Seq<u8>, i: int) -> bool {
    let start = ph_offset_field(s) + i * ph_entsize_field(s);
    i < ph_count_field(s) && ph_offset_field(s) > 0 && ph_entsize_field(s) > 0 ==> {
        &&& start + ph_entsize_field(s) <= s.len()
        &&& ph_entsize_field(s) >= (if is_elf64(s) { 56int } else { 32int })
        &&& start % word_align(s) == 0
    }
}

/// The bytes of `.strtab`, the name that `ElfFile::get_string` looks for.
pub open spec fn strtab_name() -> Seq<u8> {
    seq![0x2eu8, 0x73u8, 0x74u8, 0x72u8, 0x74u8, 0x61u8, 0x62u8]
}

/// Whether section `i` is named `.strtab`.
pub open spec fn named_strtab(s: Seq<u8>, i: int) -> bool {
    let t = sec_type_field(s, i);
    let n = sh_strndx_field(s);
    &&& known_type(t) && t != 0
    &&& sh_parses(s, n) && sec_offset_field(s, n) <= s.len()
    &&& c_str_bytes(s.subrange(sec_offset_field(s, n) + sec_name_field(s, i), s.len() as int)) == strtab_name()
}

/// The first section, from `i` on, that the iteration over the sections
/// finds named `.strtab`; the iteration ends at the announced count or at
/// the first header that the file does not hold.
pub open spec fn first_strtab(s: Seq<u8>, i: int) -> Option<int>
    decreases sh_count_field(s) - i,
{
    if i < 0 || i >= sh_count_field(s) || !sh_parses(s, i) {
        None
    } else if named_strtab(s, i) {
        Some(i)
    } else {
        first_strtab(s, i + 1)
    }
}

/// Whether `ElfFile::get_string(index)` does not panic: where `.strtab` is
/// found with that type, its string at `index` lies in the section and is a
/// zero-terminated UTF-8 string.
pub open spec fn string_read_safe(s: Seq<u8>, index: int) -> bool {
    match first_strtab(s, 0) {
        Some(i) => sec_type_field(s, i) == 3 ==> {
            let off = sec_offset_field(s, i);
            let size = sec_size_field(s, i);
            &&& index <= size
            &&& c_str_ok(s.subrange(off + index, off + size))
        },
        None => true,
    }
}

/// The name index of entry `j` of the 64-bit symbol table held in section `i`.
pub open spec fn sym_name_field(s: Seq<u8>, i: int, j: int) -> int {
    le(s, sec_offset_field(s, i) + 24 * j, 4)
}

/// Whether section `i` holds a 64-bit symbol table whose entry `j` exists
/// and has the name index `name`.
pub open spec fn entry_name_at(s: Seq<u8>, i: int, j: int, name: int) -> bool {
    &&& header_parses(s)
    &&& sh_parses(s, i)
    &&& sec_type_field(s, i) == 2
    &&& is_elf64(s)
    &&& 0 <= j < sec_size_field(s, i) / 24
    &&& name == sym_name_field(s, i, j)
}

/// Whether, where section `i` holds a 64-bit symbol table, the name of each
/// of its entries is a string of `.strtab` that can be read.
pub open spec fn symbol_names_safe(s: Seq<u8>, i: int) -> bool {
    sec_type_field(s, i) == 2 && is_elf64(s) ==> forall|j: int|
        0 <= j < sec_size_field(s, i) / 24 ==> string_read_safe(s, #[trigger] sym_name_field(s, i, j))
}

/// Whether `xmas_elf` reads every part of the ELF file `s` that the loader
/// asks for without panicking: each section header that the file holds is
/// large enough and aligned, with a readable name and data; every program
/// header is readable; the iteration over the sections ends before the
/// reserved indices; and the name of every symbol lies in `.strtab` as a
/// zero-terminated UTF-8 string. A file whose header does not parse is
/// refused without panicking. The fields are read in little-endian order,
/// the byte order of the machines that the kernel runs on.
pub open spec fn elf_readable(s: Seq<u8>) -> bool {
    header_parses(s) ==> {
        &&& forall|i: int| 0 <= i < SHN_LORESERVE ==> #[trigger] sh_read_safe(s, i)
        &&& forall|i: int| #[trigger] sh_parses(s, i) ==> name_read_safe(s, i) && data_read_safe(s, i)
        &&& forall|i: int| 0 <= i < 0x1_0000 ==> #[trigger] ph_read_safe(s, i)
        &&& (forall|i: int| 0 <= i < SHN_LORESERVE ==> sh_parses(s, i)) ==> sh_count_field(s) <= SHN_LORESERVE
        &&& forall|i: int| #[trigger] sh_parses(s, i) ==> symbol_names_safe(s, i)
    }
}

/// Whether, where the header of `s` parses, every program header can be
/// read without panicking: the part of `elf_readable` that reading an
/// executable's segments needs.
pub open spec fn program_headers_readable(s: Seq<u8>) -> bool {
    header_parses(s) ==> forall|i: int| 0 <= i < 0x1_0000 ==> #[trigger] ph_read_safe(s, i)
}

/// Copies `input` into memory aligned for 8-byte words (with zerocopy's
/// `IntoBytes`) and parses its ELF header with `xmas_elf::ElfFile::new`,
/// returning the message of the error it reports, if any; it reports none
/// exactly where the header parses. The contract names the message. The
/// copy is what makes the reads aligned, whatever the address of `input`.
#[verifier::external_body]
pub(crate) fn header_error(input: &[u8]) -> (r: Option<&'static str>)
    ensures
        match elf_header_error(input@) {
            None => r is None,
            Some(m) => r matches Some(e) && e@ == m,
        },
        r is None <==> header_parses(input@),
{
    let mut words = vec![0u64; input.len()];
    words.as_mut_bytes()[..input.len()].copy_from_slice(input);
    match ElfFile::new(&words.as_bytes()[..input.len()]) {
        Ok(_) => None,
        Err(e) => Some(e),
    }
}

/// Parses an aligned copy of `input` with `xmas_elf::ElfFile::new` and
/// reads `header.pt2.sh_count()`, the field of the header that counts the
/// section headers; `None` exactly where the header does not parse.
#[verifier::external_body]
pub(crate) fn section_count(input: &[u8]) -> (r: Option<u16>)
    ensures
        r == elf_section_count(input@),
        r is Some <==> elf_header_error(input@) is None,
        r matches Some(c) ==> c == sh_count_field(input@),
{
    let mut words = vec![0u64; input.len()];
    words.as_mut_bytes()[..input.len()].copy_from_slice(input);
    ElfFile::new(&words.as_bytes()[..input.len()]).ok().map(|f| f.header.pt2.sh_count())
}

/// Reads the type field of the ELF header (`header.pt2.type_()`) of an
/// aligned copy of `input`, whose value 1 marks a relocatable object file;
/// `None` where the header does not parse.
#[verifier::external_body]
pub(crate) fn file_type(input: &[u8]) -> (r: Option<u16>)
    ensures
        r == elf_file_type(input@),
        r is Some <==> elf_header_error(input@) is None,
{
    let mut words = vec![0u64; input.len()];
    words.as_mut_bytes()[..input.len()].copy_from_slice(input);
    ElfFile::new(&words.as_bytes()[..input.len()]).ok().map(|f| f.header.pt2.type_().0)
}

/// Reads `header.pt2.ph_count()`, the number of program headers, of an
/// aligned copy of `input`; `None` exactly where the header does not parse.
#[verifier::external_body]
pub(crate) fn program_count(input: &[u8]) -> (r: Option<u16>)
    ensures
        r == elf_program_count(input@),
        r is Some <==> elf_header_error(input@) is None,
        r matches Some(c) ==> c == ph_count_field(input@),
{
    let mut words = vec![0u64; input.len()];
    words.as_mut_bytes()[..input.len()].copy_from_slice(input);
    ElfFile::new(&words.as_bytes()[..input.len()]).ok().map(|f| f.header.pt2.ph_count())
}

/// Reads program header `index` of an aligned copy of `input` with
/// `ElfFile::program_header`: whether `get_type` gives `Type::Load`, and its
/// flags, virtual address, memory size and offset; `None` where the file or
/// the header does not parse. The contract names the result; `requires`
/// leaves out the files on which `xmas_elf` panics.
#[verifier::external_body]
pub(crate) fn program_header(input: &[u8], index: u16) -> (r: Option<(bool, u32, u64, u64, u64)>)
    requires
        program_headers_readable(input@),
    ensures
        r == elf_program_header(input@, index),
        elf_header_error(input@) is Some ==> r is None,
{
    let mut words = vec![0u64; input.len()];
    words.as_mut_bytes()[..input.len()].copy_from_slice(input);
    let f = ElfFile::new(&words.as_bytes()[..input.len()]).ok()?;
    let h = f.program_header(index).ok()?;
    Some((h.get_type() == Ok(xmas_elf::program::Type::Load), h.flags().0, h.virtual_addr(), h.mem_size(), h.offset()))
}

/// Reads `header.pt2.entry_point()` of an aligned copy of `input`; `None`
/// exactly where the header does not parse.
#[verifier::external_body]
pub(crate) fn entry_point(input: &[u8]) -> (r: Option<u64>)
    ensures
        r == elf_entry_point(input@),
        r is Some <==> elf_header_error(input@) is None,
{
    let mut words = vec![0u64; input.len()];
    words.as_mut_bytes()[..input.len()].copy_from_slice(input);
    ElfFile::new(&words.as_bytes()[..input.len()]).ok().map(|f| f.header.pt2.entry_point())
}

/// Parses section header `index` of an aligned copy of `input` with
/// `ElfFile::section_header` and reads its flags, size, alignment, offset
/// and address, and its type through `get_type` (the types whose data
/// `get_data` hands out as raw bytes told apart as `RawData`, the other
/// known ones as `Structured`). `None` where the file or the header does not
/// parse. The contract names the result; `requires` leaves out the files on
/// which `xmas_elf` panics.
#[verifier::external_body]
fn section_header_fields(input: &[u8], index: u16) -> (r: Option<(u64, u64, u64, u64, u64, SectionKind)>)
    requires
        index < SHN_LORESERVE,
        elf_readable(input@),
    ensures
        match elf_section_fields(input@, index) {
            None => r is None,
            Some(f) => r matches Some(t) && f == (t.0, t.1, t.2, t.3, t.4, t.5.code()),
        },
{
    let n = input.len();
    let mut w = vec![0u64; n];
    w.as_mut_bytes()[..n].copy_from_slice(input);
    let s = ElfFile::new(&w.as_bytes()[..n]).ok()?.section_header(index).ok()?;
    let k = match s.get_type() {
        Ok(Null) => SectionKind::Null,
        Ok(ProgBits) => SectionKind::ProgBits,
        Ok(NoBits) => SectionKind::NoBits,
        Ok(SymTab) => SectionKind::SymTab,
        Ok(ShLib | OsSpecific(_) | ProcessorSpecific(_) | User(_)) => SectionKind::RawData,
        Ok(_) => SectionKind::Structured,
        Err(_) => SectionKind::Invalid,
    };
    Some((s.flags(), s.size(), s.align(), s.offset(), s.address(), k))
}

/// Section header `index`: its flags, size, alignment, offset, address and
/// kind; `None` where the file or the header does not parse.
pub(crate) fn section_header(input: &[u8], index: u16) -> (r: Option<ElfSection>)
    requires
        index < SHN_LORESERVE,
        elf_readable(input@),
    ensures
        match elf_section_fields(input@, index) {
            None => r is None,
            Some(f) => r matches Some(s) && f == (s.flags, s.size, s.align, s.offset, s.address, s.kind.code()),
        },
{
    match section_header_fields(input, index) {
        Some((flags, size, align, offset, address, kind)) => Some(ElfSection { flags, size, align, offset, address, kind }),
        None => None,
    }
}

/// Reads the name of section `index` of an aligned copy of `input` with
/// `SectionHeader::get_name`; `None` where the file or header does not
/// parse or the section has type NULL. `requires` leaves out the files on
/// which `xmas_elf` panics.
#[verifier::external_body]
pub(crate) fn section_name(input: &[u8], index: u16) -> (r: Option<String>)
    requires
        index < SHN_LORESERVE,
        elf_readable(input@),
    ensures
        match elf_section_name(input@, index) {
            None => r is None,
            Some(n) => r matches Some(s) && s@ == n,
        },
{
    let mut words = vec![0u64; input.len()];
    words.as_mut_bytes()[..input.len()].copy_from_slice(input);
    let f = ElfFile::new(&words.as_bytes()[..input.len()]).ok()?;
    f.section_header(index).ok()?.get_name(&f).ok().map(String::from)
}

/// Reads the symbol table that section `index` of an aligned copy of
/// `input` holds (`get_data` giving `SectionData::SymbolTable64`) and
/// returns its number of entries; `None` for any other section data. The
/// entries are cast from bytes of the file, so there are no more of them
/// than the file has bytes. `requires` leaves out the files on which
/// `xmas_elf` panics.
#[verifier::external_body]
pub(crate) fn symbol_count(input: &[u8], index: u16) -> (r: Option<usize>)
    requires
        index < SHN_LORESERVE,
        elf_readable(input@),
    ensures
        r == elf_symbol_count(input@, index),
        r matches Some(n) ==> n <= input@.len(),
{
    let mut words = vec![0u64; input.len()];
    words.as_mut_bytes()[..input.len()].copy_from_slice(input);
    let f = ElfFile::new(&words.as_bytes()[..input.len()]).ok()?;
    match f.section_header(index).ok()?.get_data(&f) {
        Ok(SectionData::SymbolTable64(entries)) => Some(entries.len()),
        _ => None,
    }
}

/// A symbol table entry as it is stored: the name's index in `.strtab`, the
/// info byte (binding in the upper four bits, type in the lower four), the
/// index of the section it belongs to, its value and its size.
#[derive(Debug, Clone, Copy, PartialEq, Eq, Structural)]
pub struct SymbolEntry {
    pub name: u32,
    pub info: u8,
    pub shndx: u16,
    pub value: u64,
    pub size: u64,
}

/// Reads entry `i` of the symbol table that section `index` of an aligned
/// copy of `input` holds, through the `xmas_elf::symbol_table::Entry`
/// accessors. `requires` leaves out the files on which `xmas_elf` panics.
#[verifier::external_body]
pub(crate) fn symbol_entry(input: &[u8], index: u16, i: usize) -> (r: Option<(u32, u8, u16, u64, u64)>)
    requires
        index < SHN_LORESERVE,
        elf_readable(input@),
    ensures
        r == elf_symbol_entry(input@, index, i as int),
        r matches Some(e) ==> entry_name_at(input@, index as int, i as int, e.0 as int),
{
    let mut words = vec![0u64; input.len()];
    words.as_mut_bytes()[..input.len()].copy_from_slice(input);
    let f = ElfFile::new(&words.as_bytes()[..input.len()]).ok()?;
    match f.section_header(index).ok()?.get_data(&f) {
        Ok(SectionData::SymbolTable64(entries)) => entries.get(i).map(|e| (e.name(), e.info(), e.shndx(), e.value(), e.size())),
        _ => None,
    }
}

/// Reads the string at `index` of the `.strtab` section of an aligned copy
/// of `input` with `ElfFile::get_string`, or the message of its error (also
/// where the file does not parse). `requires` leaves out the files on which
/// `xmas_elf` panics, and the indices that lie beyond the section or do not
/// start a zero-terminated UTF-8 string there.
#[verifier::external_body]
pub(crate) fn string_at(input: &[u8], index: u32) -> (r: Result<String, &'static str>)
    requires
        elf_readable(input@),
        header_parses(input@) ==> string_read_safe(input@, index as int),
    ensures
        match elf_string(input@, index) {
            Ok(n) => r matches Ok(s) && s@ == n,
            Err(m) => r matches Err(e) && e@ == m,
        },
{
    let mut words = vec![0u64; input.len()];
    words.as_mut_bytes()[..input.len()].copy_from_slice(input);
    let f = ElfFile::new(&words.as_bytes()[..input.len()])?;
    f.get_string(index).map(String::from)
}

/// The fields of a parsed section header as the named result lists them.
pub open spec fn section_fields(s: ElfSection) -> (u64, u64, u64, u64, u64, u8) {
    (s.flags, s.size, s.align, s.offset, s.address, s.kind.code())
}

/// Whether section header `index` parses and belongs to the headers that an
/// iteration over the file's sections yields: the iteration stops at the first
/// header that does not parse, at the announced count, or at the first reserved index.
pub open spec fn iterated_section(input: Seq<u8>, index: int) -> bool {
    &&& elf_section_count(input) matches Some(count)
    &&& 0 <= index < count
    &&& index < SHN_LORESERVE
    &&& forall|j: int| 0 <= j <= index ==> (#[trigger] elf_section_fields(input, j as u16)) is Some
}

/// The number of section headers that an iteration over the file's sections yields.
pub open spec fn iterated_count(input: Seq<u8>, n: int) -> bool {
    &&& forall|j: int| 0 <= j < n ==> #[trigger] iterated_section(input, j)
    &&& !iterated_section(input, n)
}

/// The kind whose code is `c`.
pub open spec fn kind_of_code(c: u8) -> SectionKind {
    if c == 0 {
        SectionKind::Null
    } else if c == 1 {
        SectionKind::ProgBits
    } else if c == 2 {
        SectionKind::NoBits
    } else if c == 3 {
        SectionKind::SymTab
    } else if c == 4 {
        SectionKind::RawData
    } else if c == 5 {
        SectionKind::Structured
    } else {
        SectionKind::Invalid
    }
}

/// The section header whose fields are `f`.
pub open spec fn section_from(f: (u64, u64, u64, u64, u64, u8)) -> ElfSection {
    ElfSection { flags: f.0, size: f.1, align: f.2, offset: f.3, address: f.4, kind: kind_of_code(f.5) }
}

/// The number of section headers that an iteration yields, counting from `i`.
pub open spec fn iterated_len_from(input: Seq<u8>, i: int) -> int
    decreases SHN_LORESERVE - i,
{
    if i < 0 || i >= SHN_LORESERVE || !iterated_section(input, i) {
        i
    } else {
        iterated_len_from(input, i + 1)
    }
}

/// The section headers that an iteration over the file's sections yields.
pub open spec fn iterated_sections(input: Seq<u8>) -> Seq<ElfSection> {
    Seq::new(
        iterated_len_from(input, 0) as nat,
        |j: int| section_from(elf_section_fields(input, j as u16)->0),
    )
}

proof fn lemma_iterated_len(input: Seq<u8>, i: int, n: int)
    requires
        0 <= i <= n,
        iterated_count(input, n),
    ensures
        iterated_len_from(input, i) == n,
    decreases n - i,
{
    if i < n {
        assert(iterated_section(input, i));
        lemma_iterated_len(input, i + 1, n);
    } else {
        assert(!iterated_section(input, n));
    }
}

/// Returns the section headers that an iteration over the file's sections
/// yields (`ElfFile::section_iter`), in the order of their indices.
pub fn read_section_headers(input: &[u8]) -> (r: Vec<ElfSection>)
    requires
        elf_readable(input@),
    ensures
        r@ == iterated_sections(input@),
        r.len() <= SHN_LORESERVE,
        iterated_count(input@, r.len() as int),
        forall|j: int| 0 <= j < r.len() ==> elf_section_fields(input@, j as u16) == Some(#[trigger] section_fields(r[j])),
{
    let mut r: Vec<ElfSection> = Vec::new();
    let count = match section_count(input) {
        None => {
            proof {
                lemma_sections_read(input@, r@);
            }
            return r;
        },
        Some(c) => c,
    };
    let mut i: u16 = 0;
    while i < count && i < SHN_LORESERVE
        invariant
            elf_readable(input@),
            elf_section_count(input@) == Some(count),
            r.len() == i,
            forall|j: int| 0 <= j < i ==> #[trigger] iterated_section(input@, j),
            forall|j: int| 0 <= j < r.len() ==> elf_section_fields(input@, j as u16) == Some(#[trigger] section_fields(r[j])),
        decreases count - i,
    {
        match section_header(input, i) {
            None => {
                proof {
                    if iterated_section(input@, i as int) {
                        assert(elf_section_fields(input@, (i as int) as u16) is Some);
                    }
                    lemma_sections_read(input@, r@);
                }
                return r;
            },
            Some(s) => {
                proof {
                    assert forall|j: int| 0 <= j <= i implies (#[trigger] elf_section_fields(input@, j as u16)) is Some by {
                        if j < i {
                            assert(iterated_section(input@, j));
                            assert(elf_section_fields(input@, j as u16) == Some(section_fields(r[j])));
                        }
                    }
                    assert(iterated_section(input@, i as int));
                }
                r.push(s);
                i = i + 1;
            },
        }
    }
    proof {
        lemma_sections_read(input@, r@);
    }
    r
}

/// The headers read are those that the iteration yields.
proof fn lemma_sections_read(input: Seq<u8>, r: Seq<ElfSection>)
    requires
        iterated_count(input, r.len() as int),
        forall|j: int| 0 <= j < r.len() ==> elf_section_fields(input, j as u16) == Some(#[trigger] section_fields(r[j])),
    ensures
        r == iterated_sections(input),
        r.len() <= SHN_LORESERVE,
{
    lemma_iterated_len(input, 0, r.len() as int);
    if r.len() > 0 {
        assert(iterated_section(input, r.len() - 1));
    }
    assert forall|j: int| 0 <= j < r.len() implies r[j] == iterated_sections(input)[j] by {
        assert(elf_section_fields(input, j as u16) == Some(section_fields(r[j])));
    }
    assert(r =~= iterated_sections(input));
}

/// The index of the first of the iterated sections that is a symbol table.
pub open spec fn first_symtab(sections: Seq<ElfSection>) -> Option<int> {
    if exists|i: int| 0 <= i < sections.len() && sections[i].kind == SectionKind::SymTab {
        Some(
            choose|i: int|
                0 <= i < sections.len() && sections[i].kind == SectionKind::SymTab && forall|j: int|
                    0 <= j < i ==> (#[trigger] sections[j]).kind != SectionKind::SymTab,
        )
    } else {
        None
    }
}

/// Returns the index of the symbol table: the first section of type
/// `SHT_SYMTAB` among `sections` (the iterated section headers of `input`),
/// where its data is a table of 64-bit symbol entries.
pub fn find_symbol_table(input: &[u8], sections: &Vec<ElfSection>) -> (r: Result<u16, &'static str>)
    requires
        elf_readable(input@),
        sections.len() <= SHN_LORESERVE,
    ensures
        r matches Ok(x) ==> x < sections.len(),
        match first_symtab(sections@) {
            Some(i) => if elf_symbol_count(input@, i as u16) is Some {
                r == Ok::<u16, &'static str>(i as u16)
            } else {
                r matches Err(e) && e@ == "no symbol table found. Was file stripped?"@
            },
            None => r matches Err(e) && e@ == "no symbol table found. Was file stripped?"@,
        },
{
    let mut i: usize = 0;
    while i < sections.len()
        invariant
            elf_readable(input@),
            sections.len() <= SHN_LORESERVE,
            i <= sections.len(),
            forall|j: int| 0 <= j < i ==> (#[trigger] sections@[j]).kind != SectionKind::SymTab,
        decreases sections.len() - i,
    {
        if sections[i].kind == SectionKind::SymTab {
            proof {
                let c = choose|k: int|
                    0 <= k < sections@.len() && sections@[k].kind == SectionKind::SymTab && forall|j: int|
                        0 <= j < k ==> (#[trigger] sections@[j]).kind != SectionKind::SymTab;
                assert(sections@[i as int].kind == SectionKind::SymTab);
                assert(c == i as int) by {
                    if c < i {
                    } else if c > i {
                    }
                }
            }
            let idx = i as u16;
            return match symbol_count(input, idx) {
                Some(_) => Ok(idx),
                None => Err("no symbol table found. Was file stripped?"),
            };
        }
        i = i + 1;
    }
    Err("no symbol table found. Was file stripped?")
}

/// The symbol entry whose fields are `f`.
pub open spec fn entry_from(f: (u32, u8, u16, u64, u64)) -> SymbolEntry {
    SymbolEntry { name: f.0, info: f.1, shndx: f.2, value: f.3, size: f.4 }
}

/// The index of the first entry from `i` on, below `n`, that cannot be read,
/// or `n`.
pub open spec fn readable_from(input: Seq<u8>, index: u16, i: int, n: int) -> int
    decreases n - i,
{
    if i >= n || elf_symbol_entry(input, index, i) is None {
        i
    } else {
        readable_from(input, index, i + 1, n)
    }
}

/// The entries of the symbol table held in section `index`, in order, up to
/// the table's length or the first entry that cannot be read.
pub open spec fn symbol_entries_read(input: Seq<u8>, index: u16) -> Seq<SymbolEntry> {
    match elf_symbol_count(input, index) {
        None => Seq::empty(),
        Some(n) => Seq::new(
            readable_from(input, index, 0, n as int) as nat,
            |j: int| entry_from(elf_symbol_entry(input, index, j)->0),
        ),
    }
}

/// Returns the entries of the symbol table held in section `index`, in order;
/// the list ends at the table's length or at the first entry that cannot be read.
pub fn read_symbol_entries(input: &[u8], index: u16) -> (r: Vec<SymbolEntry>)
    requires
        elf_readable(input@),
        index < SHN_LORESERVE,
    ensures
        r@ == symbol_entries_read(input@, index),
        r.len() <= input@.len(),
        forall|j: int|
            0 <= j < r.len() ==> elf_symbol_entry(input@, index, j) == Some(
                #[trigger] symbol_fields(r[j]),
            ),
        forall|j: int| 0 <= j < r.len() ==> entry_name_at(input@, index as int, j, (#[trigger] r[j]).name as int),
        match elf_symbol_count(input@, index) {
            None => r.len() == 0,
            Some(n) => r.len() == n || (r.len() < n && elf_symbol_entry(input@, index, r.len() as int) is None),
        },
{
    let mut r: Vec<SymbolEntry> = Vec::new();
    let n = match symbol_count(input, index) {
        None => {
            assert(r@ =~= symbol_entries_read(input@, index));
            return r;
        },
        Some(n) => n,
    };
    let mut i: usize = 0;
    while i < n
        invariant
            elf_readable(input@),
            elf_symbol_count(input@, index) == Some(n),
            index < SHN_LORESERVE,
            r.len() == i,
            i <= n <= input@.len(),
            readable_from(input@, index, 0, n as int) == readable_from(input@, index, i as int, n as int),
            forall|j: int| 0 <= j < r.len() ==> r[j] == entry_from(elf_symbol_entry(input@, index, j)->0),
            forall|j: int|
                0 <= j < r.len() ==> elf_symbol_entry(input@, index, j) == Some(
                    #[trigger] symbol_fields(r[j]),
                ),
            forall|j: int| 0 <= j < r.len() ==> entry_name_at(input@, index as int, j, (#[trigger] r[j]).name as int),
        decreases n - i,
    {
        match symbol_entry(input, index, i) {
            None => {
                assert(r@ =~= symbol_entries_read(input@, index));
                return r;
            },
            Some((name, info, shndx, value, size)) => {
                r.push(SymbolEntry { name, info, shndx, value, size });
            },
        }
        i = i + 1;
    }
    assert(r@ =~= symbol_entries_read(input@, index));
    r
}

/// The fields of a symbol entry as the named result lists them.
pub open spec fn symbol_fields(e: SymbolEntry) -> (u32, u8, u16, u64, u64) {
    (e.name, e.info, e.shndx, e.value, e.size)
}

/// The binding of a symbol: the upper four bits of its info byte (1 is global).
pub open spec fn binding_bits(info: u8) -> u8 {
    info >> 4
}

/// The type of a symbol: the lower four bits of its info byte (1 object, 2
/// function, 3 section, 6 TLS).
pub open spec fn type_bits(info: u8) -> u8 {
    info & 0xf
}

/// Whether the symbol makes its section globally visible: a global symbol
/// of a function, an object or thread-local data.
pub open spec fn is_global_symbol(info: u8) -> bool {
    binding_bits(info) == 1 && (type_bits(info) == 1 || type_bits(info) == 2 || type_bits(info) == 6)
}

/// Returns the indices of the sections that have a global function, object
/// or TLS symbol.
pub fn global_section_indices(entries: &Vec<SymbolEntry>) -> (r: Vec<usize>)
    ensures
        forall|x: usize|
            r@.contains(x) <==> exists|j: int|
                0 <= j < entries.len() && (#[trigger] entries@[j]).shndx == x && is_global_symbol(entries@[j].info),
{
    let mut r: Vec<usize> = Vec::new();
    let mut i: usize = 0;
    while i < entries.len()
        invariant
            i <= entries.len(),
            forall|x: usize|
                r@.contains(x) <==> exists|j: int|
                    0 <= j < i && (#[trigger] entries@[j]).shndx == x && is_global_symbol(entries@[j].info),
        decreases entries.len() - i,
    {
        let e = entries[i];
        let binding = e.info >> 4;
        let typ = e.info & 0xf;
        let ghost old_r = r@;
        if binding == 1 && (typ == 1 || typ == 2 || typ == 6) {
            let x = e.shndx as usize;
            r.push(x);
            proof {
                assert(r@ == old_r.push(x));
                assert forall|y: usize|
                    r@.contains(y) <==> exists|j: int|
                        0 <= j < i + 1 && (#[trigger] entries@[j]).shndx == y && is_global_symbol(entries@[j].info) by {
                    if r@.contains(y) {
                        let k = choose|k: int| 0 <= k < r@.len() && r@[k] == y;
                        if k < old_r.len() {
                            assert(old_r[k] == y);
                            assert(old_r.contains(y));
                        } else {
                            assert(entries@[i as int].shndx == y);
                        }
                    }
                    if exists|j: int| 0 <= j < i + 1 && (#[trigger] entries@[j]).shndx == y && is_global_symbol(entries@[j].info) {
                        let j = choose|j: int| 0 <= j < i + 1 && (#[trigger] entries@[j]).shndx == y && is_global_symbol(entries@[j].info);
                        if j < i {
                            assert(old_r.contains(y));
                            let k = choose|k: int| 0 <= k < old_r.len() && old_r[k] == y;
                            assert(r@[k] == y);
                        } else {
                            assert(r@[r@.len() - 1] == y);
                        }
                    }
                }
            }
        } else {
            proof {
                assert forall|y: usize|
                    r@.contains(y) <==> exists|j: int|
                        0 <= j < i + 1 && (#[trigger] entries@[j]).shndx == y && is_global_symbol(entries@[j].info) by {
                    if exists|j: int| 0 <= j < i + 1 && (#[trigger] entries@[j]).shndx == y && is_global_symbol(entries@[j].info) {
                        let j = choose|j: int| 0 <= j < i + 1 && (#[trigger] entries@[j]).shndx == y && is_global_symbol(entries@[j].info);
                        assert(j != i);
                    }
                }
            }
        }
        i = i + 1;
    }
    r
}


/// Whether the names of the symbol entries `es` can all be read from
/// `.strtab` without `xmas_elf` panicking.
pub open spec fn names_readable(input: Seq<u8>, es: Seq<SymbolEntry>) -> bool {
    header_parses(input) ==> forall|j: int| 0 <= j < es.len() ==> string_read_safe(input, (#[trigger] es[j]).name as int)
}

/// The entries read from a symbol table of a readable file have readable names.
pub proof fn lemma_entries_names_readable(input: Seq<u8>, index: u16, es: Seq<SymbolEntry>)
    requires
        elf_readable(input),
        forall|j: int| 0 <= j < es.len() ==> entry_name_at(input, index as int, j, (#[trigger] es[j]).name as int),
    ensures
        names_readable(input, es),
{
    if header_parses(input) {
        assert forall|j: int| 0 <= j < es.len() implies string_read_safe(input, (#[trigger] es[j]).name as int) by {
            assert(entry_name_at(input, index as int, j, es[j].name as int));
            assert(sh_parses(input, index as int));
            assert(symbol_names_safe(input, index as int));
            assert(sym_name_field(input, index as int, j) == es[j].name as int);
        }
    }
}

} // verus!
