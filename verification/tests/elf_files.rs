use theseus_kernel::bootloader::{extract_modules_archive, ModuleKind};
use theseus_kernel::crate_type::CrateType;
use theseus_kernel::elf::{
    find_symbol_table, global_section_indices, read_section_headers, read_symbol_entries, SectionKind,
};
use theseus_kernel::executable::{parse_checked_elf_executable, parse_elf_executable};
use theseus_kernel::elf_check::{check_elf_readable, check_program_headers_readable, UNREADABLE_ELF_FILE};
use theseus_kernel::nano_core::{parse_checked_nano_core_file, NanoCorePages, PagesRange};
use theseus_kernel::section_loader::prepare_crate_load;
use theseus_kernel::crate_loader::{load_checked_crate_sections, load_crate_sections, LoadedSections};
use theseus_kernel::namespace::CrateNamespace;
use theseus_kernel::tls::TlsInitializer;
use theseus_kernel::relocation::RelocationSource;
use theseus_kernel::relocation_plan::plan_relocations;

struct Sec {
    name: &'static str,
    typ: u32,
    flags: u64,
    addr: u64,
    data: Vec<u8>,
    link: u32,
    align: u64,
    entsize: u64,
    info: u32,
}

fn push16(v: &mut Vec<u8>, x: u16) {
    v.extend_from_slice(&x.to_le_bytes());
}
fn push32(v: &mut Vec<u8>, x: u32) {
    v.extend_from_slice(&x.to_le_bytes());
}
fn push64(v: &mut Vec<u8>, x: u64) {
    v.extend_from_slice(&x.to_le_bytes());
}
fn pad8(v: &mut Vec<u8>) {
    while v.len() % 8 != 0 {
        v.push(0);
    }
}

fn header(v: &mut Vec<u8>, e_type: u16, entry: u64, phoff: u64, phnum: u16, shoff: u64, shnum: u16, shstrndx: u16) {
    v.extend_from_slice(&[0x7f, b'E', b'L', b'F', 2, 1, 1, 0, 0, 0, 0, 0, 0, 0, 0, 0]);
    push16(v, e_type);
    push16(v, 0x3e);
    push32(v, 1);
    push64(v, entry);
    push64(v, phoff);
    push64(v, shoff);
    push32(v, 0);
    push16(v, 64);
    push16(v, 56);
    push16(v, phnum);
    push16(v, 64);
    push16(v, shnum);
    push16(v, shstrndx);
}

/// A relocatable object file with a null section, the given sections and a
/// section name table; returns it with the file offset of each given section.
fn relocatable(secs: Vec<Sec>) -> (Vec<u8>, Vec<u64>) {
    let mut shstr = vec![0u8];
    let mut name_offs = Vec::new();
    for s in &secs {
        name_offs.push(shstr.len() as u32);
        shstr.extend_from_slice(s.name.as_bytes());
        shstr.push(0);
    }
    let shstr_name = shstr.len() as u32;
    shstr.extend_from_slice(b".shstrtab\0");
    let mut body = vec![0u8; 64];
    let mut offs = Vec::new();
    for s in &secs {
        while body.len() % 16 != 0 {
            body.push(0);
        }
        offs.push(body.len() as u64);
        body.extend_from_slice(&s.data);
    }
    let shstr_off = body.len() as u64;
    body.extend_from_slice(&shstr);
    pad8(&mut body);
    let shoff = body.len() as u64;
    let shnum = secs.len() as u16 + 2;
    // null section
    body.extend_from_slice(&[0u8; 64]);
    for (i, s) in secs.iter().enumerate() {
        push32(&mut body, name_offs[i]);
        push32(&mut body, s.typ);
        push64(&mut body, s.flags);
        push64(&mut body, s.addr);
        push64(&mut body, offs[i]);
        push64(&mut body, s.data.len() as u64);
        push32(&mut body, s.link);
        push32(&mut body, s.info);
        push64(&mut body, s.align);
        push64(&mut body, s.entsize);
    }
    push32(&mut body, shstr_name);
    push32(&mut body, 3);
    push64(&mut body, 0);
    push64(&mut body, 0);
    push64(&mut body, shstr_off);
    push64(&mut body, shstr.len() as u64);
    push32(&mut body, 0);
    push32(&mut body, 0);
    push64(&mut body, 1);
    push64(&mut body, 0);
    let mut h = Vec::new();
    header(&mut h, 1, 0, 0, 0, shoff, shnum, shnum - 1);
    body[..64].copy_from_slice(&h);
    (body, offs)
}

fn symbol(name: u32, info: u8, shndx: u16, value: u64, size: u64) -> Vec<u8> {
    let mut v = Vec::new();
    push32(&mut v, name);
    v.push(info);
    v.push(0);
    push16(&mut v, shndx);
    push64(&mut v, value);
    push64(&mut v, size);
    v
}

const TEXT_NAME: &str = ".text._ZN8my_crate3foo17h0123456789abcdefE";

fn small_object() -> (Vec<u8>, Vec<u64>) {
    let strtab = b"\0my_crate::foo\0".to_vec();
    let mut symtab = symbol(0, 0, 0, 0, 0);
    // global (bind 1) function (type 2) in section 1
    symtab.extend(symbol(1, 0x12, 1, 0, 16));
    relocatable(vec![
        Sec { name: TEXT_NAME, typ: 1, flags: 0x6, addr: 0, data: vec![0x90; 16], link: 0, align: 16, entsize: 0, info: 0 },
        Sec { name: ".symtab", typ: 2, flags: 0, addr: 0, data: symtab, link: 3, align: 8, entsize: 24, info: 0 },
        Sec { name: ".strtab", typ: 3, flags: 0, addr: 0, data: strtab, link: 0, align: 1, entsize: 0, info: 0 },
    ])
}

#[test]
fn section_headers_are_read() {
    let (elf, offs) = small_object();
    let secs = read_section_headers(&elf);
    assert_eq!(secs.len(), 5);
    assert_eq!(secs[0].kind, SectionKind::Null);
    assert_eq!(secs[1].kind, SectionKind::ProgBits);
    assert_eq!(secs[1].flags, 0x6);
    assert_eq!(secs[1].size, 16);
    assert_eq!(secs[1].align, 16);
    assert_eq!(secs[1].offset, offs[0]);
    assert_eq!(secs[2].kind, SectionKind::SymTab);
    let symtab = find_symbol_table(&elf, &secs).unwrap();
    assert_eq!(symtab, 2);
    let entries = read_symbol_entries(&elf, symtab);
    assert_eq!(entries.len(), 2);
    assert_eq!(entries[1].shndx, 1);
    assert_eq!(entries[1].size, 16);
    assert_eq!(entries[1].info, 0x12);
    assert_eq!(global_section_indices(&entries), vec![1]);
}

#[test]
fn garbage_is_not_an_elf_file() {
    assert!(read_section_headers(&[0u8; 10]).is_empty());
    assert_eq!(prepare_crate_load(&[0u8; 10], false).unwrap().err(), Some("File is shorter than the first ELF header part"));
    assert_eq!(parse_elf_executable(&[0u8; 100]).err(), Some("Did not find ELF magic number"));
}

#[test]
fn stripped_files_have_no_symbol_table() {
    let (elf, _) = relocatable(vec![Sec {
        name: TEXT_NAME,
        typ: 1,
        flags: 0x6,
        addr: 0,
        data: vec![0x90; 16],
        link: 0,
        align: 16,
        entsize: 0,
        info: 0,
    }]);
    let secs = read_section_headers(&elf);
    assert_eq!(find_symbol_table(&elf, &secs).err(), Some("no symbol table found. Was file stripped?"));
}

#[test]
fn crate_load_is_prepared() {
    let (elf, offs) = small_object();
    assert_eq!(
        prepare_crate_load(&elf, true).unwrap().err(),
        Some("the crate has already been loaded, cannot load it again in the same namespace")
    );
    let layout = prepare_crate_load(&elf, false).unwrap().unwrap();
    assert!(!layout.merged);
    assert_eq!(layout.sections.len(), 5);
    assert_eq!(layout.text_bytes, offs[0] + 16);
    assert_eq!(layout.ro_bytes, 0);
    assert_eq!(layout.rw_bytes, 0);
}

fn executable(phdrs: &[(u32, u32, u64, u64, u64)], entry: u64) -> Vec<u8> {
    let mut v = Vec::new();
    header(&mut v, 2, entry, 64, phdrs.len() as u16, 0, 0, 0);
    for &(typ, flags, offset, vaddr, memsz) in phdrs {
        push32(&mut v, typ);
        push32(&mut v, flags);
        push64(&mut v, offset);
        push64(&mut v, vaddr);
        push64(&mut v, vaddr);
        push64(&mut v, 0);
        push64(&mut v, memsz);
        push64(&mut v, 0x1000);
    }
    v.resize(v.len() + 64, 0);
    v
}

#[test]
fn executables_are_parsed() {
    let exe = executable(&[(1, 5, 0x1000, 0x40_0000, 0x2000), (1, 6, 0x3000, 0x60_0000, 0x100)], 0x40_0010);
    let (segs, entry) = parse_elf_executable(&exe).unwrap();
    assert_eq!(entry, 0x40_0010);
    assert_eq!(segs.len(), 2);
    assert_eq!(segs[0].start, 0x40_0000);
    assert_eq!(segs[0].size, 0x2000);
    assert_eq!(segs[0].offset, 0x1000);
    assert_eq!(segs[0].flags.bits(), 0x1);
    assert_eq!(segs[1].flags.bits(), 0x8000_0000_0000_0003);
}

#[test]
fn executable_errors() {
    let not_load = executable(&[(2, 5, 0, 0x40_0000, 0x10)], 0x40_0000);
    assert_eq!(parse_elf_executable(&not_load).err(), Some("Program type in ELF file wasn't LOAD"));
    let not_read = executable(&[(1, 1, 0, 0x40_0000, 0x10)], 0x40_0000);
    assert_eq!(
        parse_elf_executable(&not_read).err(),
        Some("Program flags in ELF file wasn't Read, so EntryFlags wasn't PRESENT!")
    );
    let bad_addr = executable(&[(1, 4, 0, 0x0000_8000_0000_0000, 0x10)], 0x40_0000);
    assert_eq!(
        parse_elf_executable(&bad_addr).err(),
        Some("VirtualAddress bits 48-63 must be a sign-extension of bit 47")
    );
    let (obj, _) = small_object();
    assert_eq!(parse_elf_executable(&obj).err(), Some("not a relocatable elf file"));
}

fn cpio_entry(out: &mut Vec<u8>, name: &str, data: &[u8]) {
    let fields = [1u32, 0o100644, 0, 0, 1, 0, data.len() as u32, 0, 0, 0, 0, name.len() as u32 + 1, 0];
    out.extend_from_slice(b"070701");
    for f in fields {
        out.extend_from_slice(format!("{:08X}", f).as_bytes());
    }
    out.extend_from_slice(name.as_bytes());
    out.push(0);
    while out.len() % 4 != 0 {
        out.push(0);
    }
    out.extend_from_slice(data);
    while out.len() % 4 != 0 {
        out.push(0);
    }
}

#[test]
fn module_archive_is_unpacked() {
    let mut tar = Vec::new();
    cpio_entry(&mut tar, "k#keyboard-1234.o", b"ELF?");
    cpio_entry(&mut tar, "etc!motd", b"hello");
    cpio_entry(&mut tar, "TRAILER!!!", b"");
    let packed = lz4_flex::block::compress_prepend_size(&tar);
    let modules = extract_modules_archive(&packed).unwrap();
    assert_eq!(modules.len(), 2);
    match &modules[0].kind {
        ModuleKind::Crate { crate_type, prefix, file_name } => {
            assert_eq!(*crate_type, CrateType::Kernel);
            assert_eq!(prefix, "");
            assert_eq!(file_name, "keyboard-1234.o");
        },
        _ => panic!("expected a crate module"),
    }
    assert_eq!(modules[0].contents, b"ELF?".to_vec());
    match &modules[1].kind {
        ModuleKind::Extra(p) => {
            assert_eq!(p.dirs, vec!["etc".to_string()]);
            assert_eq!(p.file_name, "motd");
        },
        _ => panic!("expected an extra file"),
    }
    assert_eq!(modules[1].contents, b"hello".to_vec());
    assert_eq!(
        extract_modules_archive(&[0x10, 0, 0, 0, 0xF0]).err(),
        Some("lz4 decompression of bootloader modules failed")
    );
}

#[test]
fn loading_sections_adds_their_global_symbols() {
    let (elf, _) = small_object();
    let mut ns = CrateNamespace::new("kernel".to_string());
    let mut tls = TlsInitializer::empty();
    let placed = load_crate_sections(&mut ns, "my_crate-0123", &elf, &mut tls).unwrap().unwrap();
    let names: Vec<String> = match &placed {
        LoadedSections::Separate(secs, globals) => {
            assert_eq!(globals, &vec![1]);
            secs.iter().filter(|s| s.info.global).map(|s| s.info.name.clone()).collect()
        }
        LoadedSections::Merged(_) => panic!("the sections of this file are not merged"),
    };
    assert_eq!(names.len(), 1);
    assert!(ns.symbol_map().get_symbol(&names[0]).is_some());
    // a crate that the namespace holds is not loaded again, and nothing changes
    ns.add_loaded_crate("my_crate-0123", 1, &vec![]);
    assert_eq!(
        load_crate_sections(&mut ns, "my_crate-0123", &elf, &mut tls).unwrap().err(),
        Some("the crate has already been loaded, cannot load it again in the same namespace")
    );
    // garbage is refused with the ELF parser's error
    let mut other = CrateNamespace::new("apps".to_string());
    assert_eq!(
        load_crate_sections(&mut other, "x", &[0u8; 10], &mut tls).unwrap().err(),
        Some("File is shorter than the first ELF header part")
    );
}

fn rela(offset: u64, sym: u32, typ: u32, addend: u64) -> Vec<u8> {
    let mut v = Vec::new();
    push64(&mut v, offset);
    push64(&mut v, ((sym as u64) << 32) | typ as u64);
    push64(&mut v, addend);
    v
}

fn object_with_relocations(records: Vec<u8>) -> Vec<u8> {
    let strtab = b"\0my_crate::foo\0other_crate::bar::h1234\0".to_vec();
    let mut symtab = symbol(0, 0, 0, 0, 0);
    symtab.extend(symbol(1, 0x12, 1, 0, 16));
    symtab.extend(symbol(15, 0x10, 0, 0, 0));
    relocatable(vec![
        Sec { name: TEXT_NAME, typ: 1, flags: 0x6, addr: 0, data: vec![0x90; 16], link: 0, align: 16, entsize: 0, info: 0 },
        Sec { name: ".rela.text", typ: 4, flags: 0, addr: 0, data: records, link: 3, align: 8, entsize: 24, info: 1 },
        Sec { name: ".symtab", typ: 2, flags: 0, addr: 0, data: symtab, link: 4, align: 8, entsize: 24, info: 0 },
        Sec { name: ".strtab", typ: 3, flags: 0, addr: 0, data: strtab, link: 0, align: 1, entsize: 0, info: 0 },
    ]).0
}

#[test]
fn relocations_are_planned() {
    let mut records = rela(4, 1, 2, 0xffff_ffff_ffff_fffc);
    records.extend(rela(8, 2, 1, 0));
    let elf = object_with_relocations(records);
    let secs = read_section_headers(&elf);
    let symtab = find_symbol_table(&elf, &secs).unwrap();
    assert_eq!(symtab, 3);
    let plans = plan_relocations(&elf, &secs, symtab, &vec![1]).unwrap();
    assert_eq!(plans.len(), 2);
    assert_eq!(plans[0].target_shndx, 1);
    assert_eq!(plans[0].relocation.typ, 2);
    assert_eq!(plans[0].relocation.offset, 4);
    assert_eq!(plans[0].relocation.addend, 0xffff_ffff_ffff_fffc);
    assert!(matches!(plans[0].source, RelocationSource::Local(1)));
    assert_eq!(plans[1].relocation.typ, 1);
    assert_eq!(plans[1].relocation.offset, 8);
    match &plans[1].source {
        RelocationSource::Foreign(name) => assert_eq!(name, "other_crate::bar::h1234"),
        RelocationSource::Local(_) => panic!("the symbol is not in the crate"),
    }
    // the target section was not loaded
    assert_eq!(
        plan_relocations(&elf, &secs, symtab, &vec![]).err(),
        Some("target section was not loaded for Rela section")
    );
}

#[test]
fn relocation_of_a_symbol_beyond_the_table() {
    let elf = object_with_relocations(rela(0, 9, 1, 0));
    let secs = read_section_headers(&elf);
    let symtab = find_symbol_table(&elf, &secs).unwrap();
    assert_eq!(
        plan_relocations(&elf, &secs, symtab, &vec![1]).err(),
        Some("relocation entry refers to a symbol beyond the symbol table")
    );
    // a file without relocation sections plans none
    let (plain, _) = small_object();
    let plain_secs = read_section_headers(&plain);
    let plain_symtab = find_symbol_table(&plain, &plain_secs).unwrap();
    assert!(plan_relocations(&plain, &plain_secs, plain_symtab, &vec![1]).unwrap().is_empty());
}

#[test]
fn well_formed_files_are_readable() {
    let (obj, _) = small_object();
    assert!(check_elf_readable(&obj));
    let exe = executable(&[(1, 5, 0x1000, 0x40_0000, 0x2000)], 0x40_0010);
    assert!(check_program_headers_readable(&exe));
    // a file whose header does not parse is refused by the parser itself
    assert!(check_elf_readable(&[0u8; 10]));
}

#[test]
fn section_headers_too_small_are_unreadable() {
    let (mut obj, _) = small_object();
    // section header entries of 32 bytes cannot hold a 64-bit header
    obj[58] = 32;
    assert!(!check_elf_readable(&obj));
    let mut ns = CrateNamespace::new("kernel".to_string());
    let mut tls = TlsInitializer::empty();
    assert_eq!(load_checked_crate_sections(&mut ns, "my_crate-0123", &obj, &mut tls).unwrap().err(), Some(UNREADABLE_ELF_FILE));
    assert!(ns.crate_here("my_crate-0123").is_none());
    // the well-formed file is loaded
    let (good, _) = small_object();
    let placed = load_checked_crate_sections(&mut ns, "my_crate-0123", &good, &mut tls).unwrap().unwrap();
    assert!(matches!(placed, LoadedSections::Separate(_, _)));
}

#[test]
fn symbol_names_outside_the_string_table_are_unreadable() {
    let (mut obj, offs) = small_object();
    // the name of the second symbol points past the end of `.strtab`
    let at = offs[1] as usize + 24;
    obj[at..at + 4].copy_from_slice(&200u32.to_le_bytes());
    assert!(!check_elf_readable(&obj));
    // a name that is not zero-terminated within `.strtab` is unreadable too
    let (mut obj2, offs2) = small_object();
    let at2 = offs2[1] as usize + 24;
    obj2[at2..at2 + 4].copy_from_slice(&15u32.to_le_bytes());
    assert!(!check_elf_readable(&obj2));
}

#[test]
fn truncated_program_headers_are_unreadable() {
    let mut exe = executable(&[(1, 5, 0x1000, 0x40_0000, 0x2000)], 0x40_0010);
    exe.truncate(64 + 30);
    assert!(!check_program_headers_readable(&exe));
    assert!(!check_elf_readable(&exe));
    assert_eq!(parse_checked_elf_executable(&exe).err(), Some(UNREADABLE_ELF_FILE));
    let good = executable(&[(1, 5, 0x1000, 0x40_0000, 0x2000)], 0x40_0010);
    assert_eq!(parse_checked_elf_executable(&good).unwrap().1, 0x40_0010);
    let pages = NanoCorePages {
        text: PagesRange { start: 0xFFFF_FFFF_8010_0000, size: 0x10000 },
        rodata: PagesRange { start: 0xFFFF_FFFF_8020_0000, size: 0x10000 },
        data: PagesRange { start: 0xFFFF_FFFF_8030_0000, size: 0x10000 },
    };
    assert_eq!(parse_checked_nano_core_file(Some("bin"), &exe, &pages).err(), Some(UNREADABLE_ELF_FILE));
    // another extension is refused for the extension, whatever the bytes
    assert_eq!(
        parse_checked_nano_core_file(Some("txt"), &exe, &pages).err(),
        Some("nano_core object file had unexpected file extension. Expected \".bin\" or \".sym\"")
    );
}
