use theseus_kernel::bootloader::{classify_module, extra_file_path, group_namespace_dirs, namespace_dir_name, ModuleKind};
use theseus_kernel::crate_type::CrateType;
use theseus_kernel::demangle::{demangle_symbol, demangled_symbol_from};
use theseus_kernel::mmu::EntryFlags;
use theseus_kernel::multicore::{ApBringup, ApStackChoice};
use theseus_kernel::naming::{
    crate_name_as_prefix, crate_name_from_symbol, crate_name_without_hash, is_valid_crate_name_char,
    section_name_without_hash,
};
use theseus_kernel::relocation::{
    invalidates_tls_image, is_applied_rela_section, relocation_source, symbol_table_index, InternalDependency,
    RelocationEntry, RelocationSource, R_X86_64_32, R_X86_64_64,
};
use theseus_kernel::section::SectionType;
use theseus_kernel::text::{chars_of, substring};

#[test]
fn section_name_keeps_hash_delimiter() {
    assert_eq!(section_name_without_hash("keyboard_new::init::h832430094f98e56b"), "keyboard_new::init::h");
    assert_eq!(section_name_without_hash("a::hb::hc"), "a::hb::h");
    assert_eq!(section_name_without_hash("no_hash_here"), "no_hash_here");
    assert_eq!(section_name_without_hash(""), "");
}

#[test]
fn crate_name_hash_is_dropped() {
    assert_eq!(crate_name_without_hash("device_manager-e3769b63863a4030"), "device_manager");
    assert_eq!(crate_name_without_hash("a-b-c"), "a");
    assert_eq!(crate_name_without_hash("plain"), "plain");
    assert_eq!(crate_name_as_prefix("device_manager-e3769b63863a4030"), "device_manager::");
    assert_eq!(crate_name_as_prefix("plain"), "plain::");
}

#[test]
fn crate_name_chars() {
    assert!(is_valid_crate_name_char('a'));
    assert!(is_valid_crate_name_char('Z'));
    assert!(is_valid_crate_name_char('7'));
    assert!(is_valid_crate_name_char('_'));
    assert!(is_valid_crate_name_char('-'));
    assert!(is_valid_crate_name_char('é'));
    assert!(!is_valid_crate_name_char(':'));
    assert!(!is_valid_crate_name_char(' '));
    assert!(!is_valid_crate_name_char('<'));
}

#[test]
fn crate_of_a_symbol() {
    assert_eq!(crate_name_from_symbol("my_crate::foo::bar::h123"), "my_crate");
    assert_eq!(crate_name_from_symbol("<*const T as core::fmt::Debug>::fmt"), "core");
    assert_eq!(crate_name_from_symbol("no_path"), "no_path");
}

#[test]
fn module_names_are_parsed() {
    let r = CrateType::from_module_name("ksse#my_crate.o");
    assert!(matches!(r, Ok((CrateType::Kernel, "sse", "my_crate.o"))));
    let r = CrateType::from_module_name("a#app.o");
    assert!(matches!(r, Ok((CrateType::Application, "", "app.o"))));
    let r = CrateType::from_module_name("u#lib.o");
    assert!(matches!(r, Ok((CrateType::Userspace, "", "lib.o"))));
}

#[test]
fn module_name_errors() {
    assert_eq!(
        CrateType::from_module_name("my_crate.o").err(),
        Some("couldn't parse crate name after prefix delimiter")
    );
    assert_eq!(
        CrateType::from_module_name("k#a#b").err(),
        Some("found more than one '#' delimiter in module name")
    );
    assert_eq!(
        CrateType::from_module_name("x#a.o").err(),
        Some("module_name didn't start with a known CrateType prefix")
    );
    assert_eq!(
        CrateType::from_module_name("#a.o").err(),
        Some("module_name didn't start with a known CrateType prefix")
    );
}

#[test]
fn module_name_round_trip() {
    for t in [CrateType::Kernel, CrateType::Application, CrateType::Userspace] {
        let name = format!("{}ns#file.o", t.first_char());
        let r = CrateType::from_module_name(&name).unwrap();
        assert_eq!(r.0, t);
        assert_eq!(r.1, "ns");
        assert_eq!(r.2, "file.o");
    }
}

#[test]
fn module_name_prefix_tests() {
    assert!(CrateType::is_kernel("k#a.o"));
    assert!(!CrateType::is_kernel("a#a.o"));
    assert!(CrateType::is_application("a#a.o"));
    assert!(CrateType::is_userspace("u#a.o"));
    assert!(!CrateType::is_userspace(""));
    assert_eq!(CrateType::Kernel.first_char(), "k");
    assert_eq!(CrateType::Application.first_char(), "a");
    assert_eq!(CrateType::Userspace.first_char(), "u");
}

#[test]
fn section_type_names() {
    assert_eq!(SectionType::Text.name(), ".text");
    assert_eq!(SectionType::Rodata.name(), ".rodata");
    assert_eq!(SectionType::Data.name(), ".data");
    assert_eq!(SectionType::Bss.name(), ".bss");
    assert_eq!(SectionType::TlsData.name(), ".tdata");
    assert_eq!(SectionType::TlsBss.name(), ".tbss");
    assert_eq!(SectionType::GccExceptTable.name(), ".gcc_except_table");
    assert_eq!(SectionType::EhFrame.name(), ".eh_frame");
    assert!(SectionType::TlsData.is_tls());
    assert!(SectionType::TlsBss.is_tls());
    assert!(!SectionType::Data.is_tls());
}

#[test]
fn text_helpers() {
    assert_eq!(chars_of("aé"), vec!['a', 'é']);
    assert_eq!(substring("héllo", 1, 3), "él");
    assert_eq!(substring("abc", 3, 3), "");
}

#[test]
fn symbols_are_demangled() {
    let d = demangle_symbol("_ZN7console4init17h71243d883671cb51E");
    assert_eq!(d.no_hash, "console::init");
    assert_eq!(d.hash.as_deref(), Some("h71243d883671cb51"));
    let d = demangle_symbol("not_mangled");
    assert_eq!(d.no_hash, "not_mangled");
    assert_eq!(d.hash, None);
}

#[test]
fn demangled_hash_is_the_tail() {
    let d = demangled_symbol_from("a::b".to_string(), "a::b::h0123".to_string());
    assert_eq!(d.no_hash, "a::b");
    assert_eq!(d.hash.as_deref(), Some("h0123"));
    let d = demangled_symbol_from("a::b".to_string(), "a::b".to_string());
    assert_eq!(d.hash, None);
}

#[test]
fn modules_are_classified() {
    assert!(matches!(classify_module("modules.cpio.lz4"), ModuleKind::Archive));
    match classify_module("k#keyboard-1234.o") {
        ModuleKind::Crate { crate_type, prefix, file_name } => {
            assert_eq!(crate_type, CrateType::Kernel);
            assert_eq!(prefix, "");
            assert_eq!(file_name, "keyboard-1234.o");
        },
        _ => panic!("expected a crate module"),
    }
    match classify_module("etc!config!net.toml") {
        ModuleKind::Extra(p) => {
            assert_eq!(p.dirs, vec!["etc".to_string(), "config".to_string()]);
            assert_eq!(p.file_name, "net.toml");
        },
        _ => panic!("expected an extra file"),
    }
}

#[test]
fn extra_file_paths() {
    let p = extra_file_path("README");
    assert!(p.dirs.is_empty());
    assert_eq!(p.file_name, "README");
    let p = extra_file_path("a!!b");
    assert_eq!(p.dirs, vec!["a".to_string(), "".to_string()]);
    assert_eq!(p.file_name, "b");
}

#[test]
fn page_flags_basics() {
    assert_eq!(EntryFlags::empty().bits(), 0);
    assert_eq!(EntryFlags::default_flags().bits(), 0x1);
    assert_eq!(EntryFlags::writable().bits(), 0x2);
    assert_eq!(EntryFlags::rw_flags().bits(), 0x3);
    assert_eq!(EntryFlags::from_bits_truncate(0xFFFF_FFFF_FFFF_FFFF).bits(), 0x8000_0000_0000_00FF);
    let f = EntryFlags::from_bits_truncate(0x81);
    assert!(f.is_huge());
    assert!(!f.is_page());
    assert!(EntryFlags::default_flags().is_page());
    let w = EntryFlags::empty().set_writable();
    assert_eq!(w.bits(), 0x3);
    assert!(w.is_writable());
    assert!(w.is_executable());
    assert_eq!(EntryFlags::empty().union_bits(0x10).bits(), 0x10);
}

#[test]
fn section_flags_say_what_a_section_is() {
    // SHF_WRITE | SHF_ALLOC: present, writable, not executable
    let f = EntryFlags::from_elf_section_flags(0x3);
    assert_eq!(f.bits(), 0x8000_0000_0000_0003);
    assert!(f.is_writable());
    assert!(!f.is_executable());
    // SHF_ALLOC | SHF_EXECINSTR: present, executable, read-only
    let f = EntryFlags::from_elf_section_flags(0x6);
    assert_eq!(f.bits(), 0x1);
    assert!(!f.is_writable());
    assert!(f.is_executable());
    // not allocated
    assert_eq!(EntryFlags::from_elf_section_flags(0).bits(), 0x8000_0000_0000_0000);
    // multiboot2 uses the same ELF flag bits
    assert_eq!(EntryFlags::from_multiboot2_section_flags(0x3).bits(), 0x8000_0000_0000_0003);
    assert_eq!(EntryFlags::from_multiboot2_section_flags(0x6).bits(), 0x1);
    // program header flags: R = 4, W = 2, X = 1
    assert_eq!(EntryFlags::from_elf_program_flags(0x5).bits(), 0x1);
    assert_eq!(EntryFlags::from_elf_program_flags(0x6).bits(), 0x8000_0000_0000_0003);
    assert_eq!(EntryFlags::from_elf_program_flags(0x0).bits(), 0x8000_0000_0000_0000);
}

#[test]
fn relocation_entries() {
    let r = RelocationEntry::from_elf_relocation(0x10, (7u64 << 32) | 2, 0x20);
    assert_eq!(r.typ, 2);
    assert_eq!(r.offset, 0x10);
    assert_eq!(r.addend, 0x20);
    assert!(!r.is_absolute());
    assert!(RelocationEntry { typ: R_X86_64_64, addend: 0, offset: 0 }.is_absolute());
    assert!(RelocationEntry { typ: R_X86_64_32, addend: 0, offset: 0 }.is_absolute());
    assert_eq!(symbol_table_index((7u64 << 32) | 2), 7);
    let d = InternalDependency::new(r, 3);
    assert_eq!(d.source_sec_shndx, 3);
    assert_eq!(d.relocation, r);
}

#[test]
fn which_rela_sections_apply() {
    assert!(is_applied_rela_section(24, Some(".rela.text.foo")));
    assert!(!is_applied_rela_section(0, Some(".rela.text.foo")));
    assert!(!is_applied_rela_section(24, Some(".rela.debug_info")));
    assert!(is_applied_rela_section(24, Some(".rela.eh_frame")));
    assert!(is_applied_rela_section(24, None));
}

#[test]
fn relocation_sources() {
    assert!(matches!(relocation_source(5, true, None), Ok(RelocationSource::Local(5))));
    assert_eq!(
        relocation_source(5, false, None).err(),
        Some("Couldn't get source section's name, needed for non-local relocation entry")
    );
    match relocation_source(5, false, Some(".data.rel.ro._ZN7console4init17h71243d883671cb51E")) {
        Ok(RelocationSource::Foreign(s)) => assert_eq!(s, "console::init::h71243d883671cb51"),
        _ => panic!("expected a foreign source"),
    }
    match relocation_source(5, false, Some("_ZN7console4init17h71243d883671cb51E")) {
        Ok(RelocationSource::Foreign(s)) => assert_eq!(s, "console::init::h71243d883671cb51"),
        _ => panic!("expected a foreign source"),
    }
}

#[test]
fn tls_image_invalidation() {
    assert!(invalidates_tls_image(true, SectionType::TlsData));
    assert!(invalidates_tls_image(true, SectionType::TlsBss));
    assert!(!invalidates_tls_image(false, SectionType::TlsData));
    assert!(!invalidates_tls_image(true, SectionType::Data));
}

#[test]
fn secondary_cores_share_a_spare_stack() {
    let mut b = ApBringup::new();
    assert_eq!(b.online_secondary_cpus, 0);
    assert!(matches!(b.stack_for_next_cpu(), ApStackChoice::Allocate));
    b.cpu_failed();
    assert!(matches!(b.stack_for_next_cpu(), ApStackChoice::Reuse));
    b.cpu_online();
    assert!(matches!(b.stack_for_next_cpu(), ApStackChoice::Allocate));
    b.cpu_online();
    b.cpu_failed();
    assert_eq!(b.online_secondary_cpus, 2);
    assert!(b.spare_stack);
}

fn crate_module(t: CrateType, prefix: &str, file: &str) -> ModuleKind {
    ModuleKind::Crate { crate_type: t, prefix: prefix.to_string(), file_name: file.to_string() }
}

#[test]
fn boot_modules_are_grouped_into_namespace_directories() {
    assert_eq!(CrateType::Kernel.default_namespace_name(), "_kernel");
    assert_eq!(CrateType::Application.default_namespace_name(), "_applications");
    assert_eq!(namespace_dir_name(CrateType::Kernel, "sse"), "sse_kernel");
    let kinds = vec![
        crate_module(CrateType::Kernel, "", "nano_core.o"),
        crate_module(CrateType::Application, "", "hello.o"),
        classify_module("extra!fonts!a.txt"),
        crate_module(CrateType::Kernel, "sse", "core.o"),
        crate_module(CrateType::Kernel, "", "memory.o"),
    ];
    let dirs = group_namespace_dirs(&kinds).unwrap();
    assert_eq!(dirs.names, vec!["_kernel".to_string(), "_applications".to_string(), "sse_kernel".to_string()]);
    assert_eq!(dirs.module_dirs, vec![Some(0), Some(1), None, Some(2), Some(0)]);
    assert_eq!(dirs.kernel, 0);
    // without a kernel crate of the default namespace there is no default namespace
    let others = vec![crate_module(CrateType::Application, "", "hello.o"), crate_module(CrateType::Kernel, "sse", "core.o")];
    assert_eq!(group_namespace_dirs(&others).err(), Some("BUG: no default namespace found"));
}
