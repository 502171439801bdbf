//! Reading the loadable segments and the entry point of an ELF executable:
//! each program header becomes a virtual memory area with the page flags
//! that its permissions ask for, at the offset of its contents in the file.

use vstd::prelude::*;
use crate::elf::{program_headers_readable, 
    elf_entry_point, elf_file_type, elf_header_error, elf_program_count, elf_program_header, entry_point,
    file_type, header_error, program_count, program_header,
};
use crate::mmu::{section_entry_bits, EntryFlags, PRESENT};
use crate::nano_core::{is_canonical, virtual_address, NON_CANONICAL_ADDRESS};
use crate::elf_check::{check_program_headers_readable, UNREADABLE_ELF_FILE};

verus! {

/// The ELF file type of an executable.
pub const ET_EXEC: u16 = 2;

/// A loadable segment of an executable: where it lies in memory, with
/// which page flags, and where its contents start in the file.
#[derive(Debug, Clone, Copy, PartialEq, Eq, Structural)]
pub struct ElfProgramSegment {
    pub start: usize,
    pub size: usize,
    pub flags: EntryFlags,
    pub offset: usize,
}

/// The page flag bits of a segment with program flags `f` (R = 4, W = 2, X = 1).
pub open spec fn program_entry_bits(f: u32) -> u64 {
    section_entry_bits(f & 4 == 4, f & 2 == 2, f & 1 == 1)
}

/// The segments of program headers `i` and on, after `acc`: iteration
/// stops at the first header that does not parse; a header that is not
/// `LOAD`, not readable, or at a non-canonical address is an error.
pub open spec fn segments_from(input: Seq<u8>, count: u16, i: int, acc: Seq<(usize, usize, u64, usize)>) -> Result<
    Seq<(usize, usize, u64, usize)>,
    Seq<char>,
>
    decreases count - i,
{
    if i < 0 || i >= count {
        Ok(acc)
    } else {
        match elf_program_header(input, i as u16) {
            None => Ok(acc),
            Some((is_load, f, vaddr, mem_size, offset)) => if !is_load {
                Err("Program type in ELF file wasn't LOAD"@)
            } else if f & 4 != 4 {
                Err("Program flags in ELF file wasn't Read, so EntryFlags wasn't PRESENT!"@)
            } else if !is_canonical(vaddr as usize) {
                Err(NON_CANONICAL_ADDRESS@)
            } else {
                segments_from(
                    input,
                    count,
                    i + 1,
                    acc.push((vaddr as usize, mem_size as usize, program_entry_bits(f), offset as usize)),
                )
            },
        }
    }
}

/// What parsing the executable `input` gives: its segments (start, size,
/// page flag bits, file offset) and entry point, or the first error.
pub open spec fn executable_outcome(input: Seq<u8>) -> Result<(Seq<(usize, usize, u64, usize)>, usize), Seq<char>> {
    match elf_header_error(input) {
        Some(m) => Err(m),
        None => if elf_file_type(input) != Some(ET_EXEC) {
            Err("not a relocatable elf file"@)
        } else {
            match segments_from(input, elf_program_count(input)->0, 0, Seq::empty()) {
                Err(m) => Err(m),
                Ok(segs) => {
                    let e = elf_entry_point(input)->0 as usize;
                    if is_canonical(e) {
                        Ok((segs, e))
                    } else {
                        Err(NON_CANONICAL_ADDRESS@)
                    }
                },
            }
        },
    }
}

/// A segment as the tuple `executable_outcome` speaks of.
pub open spec fn segment_tuple(s: ElfProgramSegment) -> (usize, usize, u64, usize) {
    (s.start, s.size, s.flags.spec_bits(), s.offset)
}

proof fn lemma_segments_err(input: Seq<u8>, count: u16, i: int, acc: Seq<(usize, usize, u64, usize)>)
    requires
        0 <= i < count,
        elf_program_header(input, i as u16) is None,
    ensures
        segments_from(input, count, i, acc) == Ok::<Seq<(usize, usize, u64, usize)>, Seq<char>>(acc),
{
}

/// Parses the ELF executable `input` as `parse_elf_executable` does, after
/// testing that its program headers can be read safely; a file whose
/// program headers cannot is refused with `UNREADABLE_ELF_FILE`.
pub fn parse_checked_elf_executable(input: &[u8]) -> (r: Result<(Vec<ElfProgramSegment>, usize), &'static str>)
    ensures
        !program_headers_readable(input@) ==> (r matches Err(e) && e@ == UNREADABLE_ELF_FILE@),
        program_headers_readable(input@) ==> match executable_outcome(input@) {
            Ok((segs, e)) => r matches Ok((v, e2)) && e2 == e && v@.map_values(|s: ElfProgramSegment| segment_tuple(s))
                == segs,
            Err(m) => r matches Err(x) && x@ == m,
        },
{
    if !check_program_headers_readable(input) {
        return Err(UNREADABLE_ELF_FILE);
    }
    parse_elf_executable(input)
}

/// Parses the ELF executable `input` and returns its loadable segments and
/// its entry point.
pub fn parse_elf_executable(input: &[u8]) -> (r: Result<(Vec<ElfProgramSegment>, usize), &'static str>)
    requires
        program_headers_readable(input@),
    ensures
        match executable_outcome(input@) {
            Ok((segs, e)) => r matches Ok((v, e2)) && e2 == e && v@.map_values(|s: ElfProgramSegment| segment_tuple(s))
                == segs,
            Err(m) => r matches Err(x) && x@ == m,
        },
{
    if let Some(e) = header_error(input) {
        return Err(e);
    }
    match file_type(input) {
        Some(t) => {
            if t != ET_EXEC {
                return Err("not a relocatable elf file");
            }
        },
        None => {
            return Err("not a relocatable elf file");
        },
    }
    let count = match program_count(input) {
        Some(c) => c,
        None => {
            return Err("not a relocatable elf file");
        },
    };
    let mut segs: Vec<ElfProgramSegment> = Vec::new();
    let mut i: u16 = 0;
    assert(segs@.map_values(|s: ElfProgramSegment| segment_tuple(s)) =~= Seq::<(usize, usize, u64, usize)>::empty());
    while i < count
        invariant
            program_headers_readable(input@),
            i <= count,
            elf_header_error(input@) is None,
            elf_file_type(input@) == Some(ET_EXEC),
            count == elf_program_count(input@)->0,
            segments_from(input@, count, 0, Seq::empty()) == segments_from(
                input@,
                count,
                i as int,
                segs@.map_values(|s: ElfProgramSegment| segment_tuple(s)),
            ),
        ensures
            elf_header_error(input@) is None,
            elf_file_type(input@) == Some(ET_EXEC),
            segments_from(input@, count, 0, Seq::empty()) == Ok::<Seq<(usize, usize, u64, usize)>, Seq<char>>(
                segs@.map_values(|s: ElfProgramSegment| segment_tuple(s)),
            ),
        decreases count - i,
    {
        let ghost acc = segs@.map_values(|s: ElfProgramSegment| segment_tuple(s));
        let (is_load, f, vaddr, mem_size, offset) = match program_header(input, i) {
            Some(h) => h,
            None => {
                proof {
                    lemma_segments_err(input@, count, i as int, acc);
                }
                break;
            },
        };
        if !is_load {
            return Err("Program type in ELF file wasn't LOAD");
        }
        let flags = EntryFlags::from_elf_program_flags(f);
        proof {
            crate::mmu::law_section_entry_bits(f & 4 == 4, f & 2 == 2, f & 1 == 1);
        }
        if flags.bits() & PRESENT != PRESENT {
            return Err("Program flags in ELF file wasn't Read, so EntryFlags wasn't PRESENT!");
        }
        let start = match virtual_address(vaddr as usize) {
            Ok(a) => a,
            Err(e) => {
                return Err(e);
            },
        };
        segs.push(ElfProgramSegment { start, size: mem_size as usize, flags, offset: offset as usize });
        proof {
            assert(segs@.map_values(|s: ElfProgramSegment| segment_tuple(s)) =~= acc.push(
                (vaddr as usize, mem_size as usize, program_entry_bits(f), offset as usize),
            ));
        }
        i = i + 1;
    }
    let e = match entry_point(input) {
        Some(e) => e,
        None => {
            return Err("not a relocatable elf file");
        },
    };
    match virtual_address(e as usize) {
        Ok(a) => Ok((segs, a)),
        Err(m) => Err(m),
    }
}

} // verus!
