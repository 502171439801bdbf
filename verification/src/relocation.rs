//! Relocation entries and the decisions made while applying a crate's
//! relocations: which relocation sections are applied, where the source of
//! each entry is looked for, and which relocations depend on the target's
//! address.

use vstd::prelude::*;
use crate::section::SectionType;
use crate::section_loader::{has_prefix, starts_with};
use crate::demangle::{demangled, demangle_forms};

verus! {

/// `R_X86_64_64`: the 64-bit address of the source.
pub const R_X86_64_64: u32 = 1;
/// `R_X86_64_32`: the 32-bit address of the source.
pub const R_X86_64_32: u32 = 10;

/// The information needed to compute and write one relocation: its type,
/// the addend to the source's address, and the offset in the target section
/// where the value is written.
#[derive(Debug, Clone, Copy, PartialEq, Eq, Structural)]
pub struct RelocationEntry {
    pub typ: u32,
    pub addend: usize,
    pub offset: usize,
}

impl RelocationEntry {
    /// The relocation entry of an ELF `Rela64` record with the fields
    /// `offset`, `info` (symbol index above bit 32, type below) and `addend`.
    pub fn from_elf_relocation(offset: u64, info: u64, addend: u64) -> (r: RelocationEntry)
        ensures
            r == (RelocationEntry {
                typ: (info & 0xffff_ffff) as u32,
                addend: addend as usize,
                offset: offset as usize,
            }),
    {
        RelocationEntry { typ: (info & 0xffff_ffff) as u32, addend: addend as usize, offset: offset as usize }
    }

    /// Whether the value written depends on the source section alone and not
    /// on the target section's address: the absolute 32- and 64-bit types.
    pub fn is_absolute(&self) -> (r: bool)
        ensures
            r == (self.typ == R_X86_64_32 || self.typ == R_X86_64_64),
    {
        match self.typ {
            R_X86_64_32 | R_X86_64_64 => true,
            _ => false,
        }
    }
}

/// The symbol index of an ELF `Rela64` record's `info` field.
pub open spec fn rela_symbol_index(info: u64) -> u32 {
    (info >> 32u64) as u32
}

/// Returns the symbol index of an ELF `Rela64` record's `info` field.
pub fn symbol_table_index(info: u64) -> (r: u32)
    ensures
        r == rela_symbol_index(info),
{
    (info >> 32u64) as u32
}

/// A dependency of a section on another section of the same crate, by the
/// other section's index, through a relocation.
#[derive(Debug, Clone, Copy, PartialEq, Eq, Structural)]
pub struct InternalDependency {
    pub relocation: RelocationEntry,
    pub source_sec_shndx: usize,
}

impl InternalDependency {
    /// The dependency through `relocation` on section `source_sec_shndx`.
    pub fn new(relocation: RelocationEntry, source_sec_shndx: usize) -> (r: InternalDependency)
        ensures
            r == (InternalDependency { relocation, source_sec_shndx }),
    {
        InternalDependency { relocation, source_sec_shndx }
    }
}

/// Whether a relocation section is applied: it is not empty, and it is not
/// one of the debug relocation sections (whose name begins with
/// `.rela.debug`), which are handled elsewhere.
pub open spec fn applies_rela_section(size: u64, name: Option<Seq<char>>) -> bool {
    size != 0 && !(name matches Some(n) && has_prefix(n, ".rela.debug"@))
}

/// Returns whether a relocation section of `size` bytes named `name` (where
/// its name can be read) is applied.
pub fn is_applied_rela_section(size: u64, name: Option<&str>) -> (r: bool)
    ensures
        r == applies_rela_section(
            size,
            match name {
                Some(n) => Some(n@),
                None => None,
            },
        ),
{
    if size == 0 {
        return false;
    }
    match name {
        Some(n) => !starts_with(n, ".rela.debug"),
        None => true,
    }
}

/// Where the source section of a relocation entry is found.
#[derive(Debug)]
pub enum RelocationSource {
    /// In the crate being loaded, as the section of this index
    Local(usize),
    /// In another crate, as the section of this (demangled) symbol
    Foreign(String),
}

/// `RelocationSource` as a specification value.
pub enum RelocationSourceView {
    Local(usize),
    Foreign(Seq<char>),
}

impl View for RelocationSource {
    type V = RelocationSourceView;

    open spec fn view(&self) -> RelocationSourceView {
        match self {
            RelocationSource::Local(i) => RelocationSourceView::Local(*i),
            RelocationSource::Foreign(s) => RelocationSourceView::Foreign(s@),
        }
    }
}

/// The prefix of the sections of relocated read-only data, which the
/// symbols they hold do not carry.
pub open spec fn data_rel_ro() -> Seq<char> {
    ".data.rel.ro."@
}

/// Where the source of a relocation entry is found: where the crate being
/// loaded has a section of the symbol's section index, that section;
/// otherwise the section of the symbol's name in other crates, the name
/// demangled (with its hash) after dropping a `.data.rel.ro.` prefix. The
/// name is needed in that case.
pub open spec fn relocation_source_spec(
    source_shndx: usize,
    local: bool,
    source_name: Option<Seq<char>>,
) -> Result<RelocationSourceView, Seq<char>> {
    if local {
        Ok(RelocationSourceView::Local(source_shndx))
    } else {
        match source_name {
            None => Err("Couldn't get source section's name, needed for non-local relocation entry"@),
            Some(n) => {
                let m = if has_prefix(n, data_rel_ro()) {
                    n.subrange(data_rel_ro().len() as int, n.len() as int)
                } else {
                    n
                };
                Ok(RelocationSourceView::Foreign(demangled(m).1))
            },
        }
    }
}

/// Decides where the source of a relocation entry is found; `local` tells
/// whether the crate being loaded has a section of index `source_shndx`,
/// and `source_name` is the symbol's name where it can be read.
pub fn relocation_source(source_shndx: usize, local: bool, source_name: Option<&str>) -> (r: Result<
    RelocationSource,
    &'static str,
>)
    ensures
        match relocation_source_spec(
            source_shndx,
            local,
            match source_name {
                Some(n) => Some(n@),
                None => None,
            },
        ) {
            Ok(v) => r matches Ok(s) && s@ == v,
            Err(m) => r matches Err(e) && e@ == m,
        },
{
    if local {
        return Ok(RelocationSource::Local(source_shndx));
    }
    match source_name {
        None => Err("Couldn't get source section's name, needed for non-local relocation entry"),
        Some(n) => {
            let prefix = ".data.rel.ro.";
            let m = if starts_with(n, prefix) {
                proof {
                    reveal_strlit(".data.rel.ro.");
                }
                let len = crate::text::chars_of(n).len();
                crate::text::substring(n, 13, len)
            } else {
                n
            };
            let (_, with_hash) = demangle_forms(m);
            Ok(RelocationSource::Foreign(with_hash))
        },
    }
}

/// Whether applying relocations to a target section changes the data of a
/// thread-local storage image, which the cached image must then drop.
pub fn invalidates_tls_image(target_sec_data_was_modified: bool, typ: SectionType) -> (r: bool)
    ensures
        r == (target_sec_data_was_modified && (typ == SectionType::TlsData || typ == SectionType::TlsBss)),
{
    target_sec_data_was_modified && typ.is_tls()
}

} // verus!
