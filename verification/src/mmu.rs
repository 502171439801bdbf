//! Page table entry flags for x86_64 and their derivation from ELF and
//! multiboot2 section flags.

use vstd::prelude::*;

verus! {

/// Present: the entry maps a page or a lower-level table.
pub const PRESENT: u64 = 0x1;
/// Writable: writes are allowed through this entry.
pub const WRITABLE: u64 = 0x2;
/// User-accessible: ring 3 may access this page.
pub const USER_ACCESSIBLE: u64 = 0x4;
/// Page-level write-through caching.
pub const WRITE_THROUGH: u64 = 0x8;
/// Page-level cache disable.
pub const NO_CACHE: u64 = 0x10;
/// Set by hardware when the page was accessed.
pub const ACCESSED: u64 = 0x20;
/// Set by hardware when the page was written.
pub const DIRTY: u64 = 0x40;
/// The entry maps a huge page.
pub const HUGE_PAGE: u64 = 0x80;
/// The global bit is deliberately disabled (zero), since some hypervisors reject it.
pub const GLOBAL: u64 = 0x0;
/// Instruction fetches from this page are not allowed.
pub const NO_EXECUTE: u64 = 0x8000_0000_0000_0000;

/// The set of all defined flag bits.
pub const ALL_FLAGS: u64 = 0x8000_0000_0000_00FF;

/// A set of x86_64 page table entry flags.
#[derive(Clone, Copy, Debug, PartialEq, Eq, Structural)]
pub struct EntryFlags {
    bits: u64,
}

impl EntryFlags {
    /// The raw bits of these flags.
    pub closed spec fn spec_bits(self) -> u64 {
        self.bits
    }

    /// Whether every bit of `mask` is set in these flags.
    pub open spec fn has(self, mask: u64) -> bool {
        self.spec_bits() & mask == mask
    }

    /// The empty flag set.
    pub fn empty() -> (r: EntryFlags)
        ensures
            r.spec_bits() == 0,
    {
        EntryFlags { bits: 0 }
    }

    /// Builds a flag set from raw bits, dropping bits that are not defined flags.
    pub fn from_bits_truncate(bits: u64) -> (r: EntryFlags)
        ensures
            r.spec_bits() == bits & ALL_FLAGS,
    {
        EntryFlags { bits: bits & ALL_FLAGS }
    }

    /// Returns the raw bits of these flags.
    pub fn bits(&self) -> (r: u64)
        ensures
            r == self.spec_bits(),
    {
        self.bits
    }

    /// Returns the union of these flags and the flags in `mask`.
    pub fn union_bits(&self, mask: u64) -> (r: EntryFlags)
        requires
            mask & ALL_FLAGS == mask,
        ensures
            r.spec_bits() == self.spec_bits() | mask,
    {
        EntryFlags { bits: self.bits | mask }
    }

    /// Returns true if the page this entry points to is a huge page.
    pub fn is_huge(&self) -> (r: bool)
        ensures
            r == self.has(HUGE_PAGE),
    {
        self.bits & HUGE_PAGE == HUGE_PAGE
    }

    /// The default flags of an accessible page: only `PRESENT`.
    pub fn default_flags() -> (r: EntryFlags)
        ensures
            r.spec_bits() == PRESENT,
    {
        EntryFlags { bits: PRESENT }
    }

    /// The flags of a writable page, excluding the default bits: only `WRITABLE`.
    pub fn writable() -> (r: EntryFlags)
        ensures
            r.spec_bits() == WRITABLE,
    {
        EntryFlags { bits: WRITABLE }
    }

    /// The flags of a writable page: `PRESENT` and `WRITABLE`.
    pub fn rw_flags() -> (r: EntryFlags)
        ensures
            r.spec_bits() == PRESENT | WRITABLE,
    {
        EntryFlags { bits: PRESENT | WRITABLE }
    }

    /// Returns true if the page is present and is not a huge page.
    pub fn is_page(&self) -> (r: bool)
        ensures
            r == (self.has(PRESENT) && !self.has(HUGE_PAGE)),
    {
        (self.bits & PRESENT == PRESENT) && !(self.bits & HUGE_PAGE == HUGE_PAGE)
    }

    /// Returns these flags with `PRESENT` and `WRITABLE` added.
    pub fn set_writable(&self) -> (r: EntryFlags)
        ensures
            r.spec_bits() == self.spec_bits() | (PRESENT | WRITABLE),
    {
        EntryFlags { bits: self.bits | (PRESENT | WRITABLE) }
    }

    /// Returns true if the `WRITABLE` bit is set.
    pub fn is_writable(&self) -> (r: bool)
        ensures
            r == (self.spec_bits() & WRITABLE != 0),
    {
        self.bits & WRITABLE != 0
    }

    /// Returns true if these flags are executable, i.e. `NO_EXECUTE` is not set.
    pub fn is_executable(&self) -> (r: bool)
        ensures
            r == (self.spec_bits() & NO_EXECUTE == 0),
    {
        self.bits & NO_EXECUTE == 0
    }
}

/// The page flags that a loaded section needs: present if it is loaded,
/// writable if it is written, and not executable unless it holds code.
pub open spec fn section_entry_bits(loaded: bool, write: bool, exec: bool) -> u64 {
    (if loaded { PRESENT } else { 0u64 }) | (if write { WRITABLE } else { 0u64 }) | (if exec {
        0u64
    } else {
        NO_EXECUTE
    })
}

fn flags_from_section_properties(loaded: bool, write: bool, exec: bool) -> (r: EntryFlags)
    ensures
        r.spec_bits() == section_entry_bits(loaded, write, exec),
{
    let present: u64 = if loaded { PRESENT } else { 0u64 };
    let write_bit: u64 = if write { WRITABLE } else { 0u64 };
    let no_exec: u64 = if exec { 0u64 } else { NO_EXECUTE };
    let bits: u64 = present | write_bit | no_exec;
    EntryFlags { bits }
}

/// Reads the section flag constants `SHF_WRITE`, `SHF_ALLOC` and `SHF_EXECINSTR`
/// of `xmas_elf::sections`, which that crate defines as 0x1, 0x2 and 0x4.
#[verifier::external_body]
fn elf_section_flag_masks() -> (r: (u64, u64, u64))
    ensures
        r == (1u64, 2u64, 4u64),
{
    (xmas_elf::sections::SHF_WRITE, xmas_elf::sections::SHF_ALLOC, xmas_elf::sections::SHF_EXECINSTR)
}

/// Calls `xmas_elf::program::Flags::is_read`, which tests the `FLAG_R` bit (0x4).
#[verifier::external_body]
fn program_flags_is_read(bits: u32) -> (r: bool)
    ensures
        r == (bits & 4u32 == 4u32),
{
    xmas_elf::program::Flags(bits).is_read()
}

/// Calls `xmas_elf::program::Flags::is_write`, which tests the `FLAG_W` bit (0x2).
#[verifier::external_body]
fn program_flags_is_write(bits: u32) -> (r: bool)
    ensures
        r == (bits & 2u32 == 2u32),
{
    xmas_elf::program::Flags(bits).is_write()
}

/// Calls `xmas_elf::program::Flags::is_execute`, which tests the `FLAG_X` bit (0x1).
#[verifier::external_body]
fn program_flags_is_execute(bits: u32) -> (r: bool)
    ensures
        r == (bits & 1u32 == 1u32),
{
    xmas_elf::program::Flags(bits).is_execute()
}

/// Tests `multiboot2::ElfSectionFlags::ALLOCATED` (0x2, from `elf::abi::SHF_ALLOC`)
/// on the flags that `ElfSectionFlags::from_bits_truncate` keeps of `bits`.
#[verifier::external_body]
fn multiboot2_is_allocated(bits: u64) -> (r: bool)
    ensures
        r == (bits & 2u64 == 2u64),
{
    multiboot2::ElfSectionFlags::from_bits_truncate(bits).contains(multiboot2::ElfSectionFlags::ALLOCATED)
}

/// Tests `multiboot2::ElfSectionFlags::WRITABLE` (0x1, from `elf::abi::SHF_WRITE`)
/// on the flags that `ElfSectionFlags::from_bits_truncate` keeps of `bits`.
#[verifier::external_body]
fn multiboot2_is_writable(bits: u64) -> (r: bool)
    ensures
        r == (bits & 1u64 == 1u64),
{
    multiboot2::ElfSectionFlags::from_bits_truncate(bits).contains(multiboot2::ElfSectionFlags::WRITABLE)
}

/// Tests `multiboot2::ElfSectionFlags::EXECUTABLE` (0x4, from `elf::abi::SHF_EXECINSTR`)
/// on the flags that `ElfSectionFlags::from_bits_truncate` keeps of `bits`.
#[verifier::external_body]
fn multiboot2_is_executable(bits: u64) -> (r: bool)
    ensures
        r == (bits & 4u64 == 4u64),
{
    multiboot2::ElfSectionFlags::from_bits_truncate(bits).contains(multiboot2::ElfSectionFlags::EXECUTABLE)
}

impl EntryFlags {
    /// Derives the page flags of a multiboot2 ELF section from its raw section
    /// flags (the bits of `ElfSection::flags()`).
    pub fn from_multiboot2_section_flags(section_flags: u64) -> (r: EntryFlags)
        ensures
            r.spec_bits() == section_entry_bits(
                section_flags & 2 == 2,
                section_flags & 1 == 1,
                section_flags & 4 == 4,
            ),
    {
        let loaded = multiboot2_is_allocated(section_flags);
        let write = multiboot2_is_writable(section_flags);
        let exec = multiboot2_is_executable(section_flags);
        flags_from_section_properties(loaded, write, exec)
    }

    /// Derives the page flags of an ELF section from its `sh_flags` field.
    pub fn from_elf_section_flags(elf_flags: u64) -> (r: EntryFlags)
        ensures
            r.spec_bits() == section_entry_bits(
                elf_flags & 2 == 2,
                elf_flags & 1 == 1,
                elf_flags & 4 != 0,
            ),
    {
        let (shf_write, shf_alloc, shf_execinstr) = elf_section_flag_masks();
        let loaded = elf_flags & shf_alloc == shf_alloc;
        let write = elf_flags & shf_write == shf_write;
        let exec = !(elf_flags & shf_execinstr == 0);
        flags_from_section_properties(loaded, write, exec)
    }

    /// Derives the page flags of an ELF program segment from its `p_flags` field.
    pub fn from_elf_program_flags(prog_flags: u32) -> (r: EntryFlags)
        ensures
            r.spec_bits() == section_entry_bits(
                prog_flags & 4 == 4,
                prog_flags & 2 == 2,
                prog_flags & 1 == 1,
            ),
    {
        let loaded = program_flags_is_read(prog_flags);
        let write = program_flags_is_write(prog_flags);
        let exec = program_flags_is_execute(prog_flags);
        flags_from_section_properties(loaded, write, exec)
    }
}

/// The page flags derived for a section say exactly what the section is:
/// present if and only if it is loaded, writable if and only if it is
/// written, executable if and only if it holds code; and they are all
/// defined flags.
pub proof fn law_section_entry_bits(loaded: bool, write: bool, exec: bool)
    ensures
        (section_entry_bits(loaded, write, exec) & PRESENT == PRESENT) == loaded,
        (section_entry_bits(loaded, write, exec) & WRITABLE != 0) == write,
        (section_entry_bits(loaded, write, exec) & NO_EXECUTE == 0) == exec,
        section_entry_bits(loaded, write, exec) & ALL_FLAGS == section_entry_bits(loaded, write, exec),
{
    let b = section_entry_bits(loaded, write, exec);
    assert(b == (if loaded { 1u64 } else { 0u64 }) | (if write { 2u64 } else { 0u64 }) | (if exec { 0u64 } else {
        0x8000_0000_0000_0000u64
    }));
    assert(((if loaded { 1u64 } else { 0u64 }) | (if write { 2u64 } else { 0u64 }) | (if exec { 0u64 } else {
        0x8000_0000_0000_0000u64
    })) & 1u64 == 1u64 <==> loaded) by (bit_vector);
    assert(((if loaded { 1u64 } else { 0u64 }) | (if write { 2u64 } else { 0u64 }) | (if exec { 0u64 } else {
        0x8000_0000_0000_0000u64
    })) & 2u64 != 0u64 <==> write) by (bit_vector);
    assert(((if loaded { 1u64 } else { 0u64 }) | (if write { 2u64 } else { 0u64 }) | (if exec { 0u64 } else {
        0x8000_0000_0000_0000u64
    })) & 0x8000_0000_0000_0000u64 == 0u64 <==> exec) by (bit_vector);
    assert(((if loaded { 1u64 } else { 0u64 }) | (if write { 2u64 } else { 0u64 }) | (if exec { 0u64 } else {
        0x8000_0000_0000_0000u64
    })) & 0x8000_0000_0000_00FFu64 == ((if loaded { 1u64 } else { 0u64 }) | (if write { 2u64 } else { 0u64 }) | (
    if exec {
        0u64
    } else {
        0x8000_0000_0000_0000u64
    }))) by (bit_vector);
}

} // verus!
