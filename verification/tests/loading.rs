use theseus_kernel::address_lookup::{
    get_crate_containing_address, get_section_containing_address, CrateRegions, SectionSpan,
};
use theseus_kernel::crate_copy::{
    copied_section_address, copy_section_addresses, internal_source_address, relocations_to_rewrite,
    SectionToCopy,
};
use theseus_kernel::nano_core::{
    check_c_string, columns_of, parse_nano_core_file, parse_nano_core_symbol_file, parse_nano_core_symbol_text,
    parse_section_ndx, parse_section_vaddr_size, parse_size_column, virtual_address, NanoCorePages, PagesRange,
};
use theseus_kernel::relocation::RelocationEntry;
use theseus_kernel::section::SectionType;
use theseus_kernel::section_loader::PagesKind;
use theseus_kernel::symbol_text::{
    find, has_prefix, is_whitespace, lines_of, parse_usize, same_chars, slice_of, split_chars, string_of,
    trimmed, words_of,
};
use theseus_kernel::crate_loader::parse_nano_core;
use theseus_kernel::namespace::{get_crate, CrateNamespace};
use theseus_kernel::tls::TlsInitializer;

fn cs(s: &str) -> Vec<char> {
    s.chars().collect()
}

fn strings(v: &Vec<Vec<char>>) -> Vec<String> {
    v.iter().map(|l| l.iter().collect()).collect()
}

#[test]
fn whitespace_and_trimming() {
    assert!(is_whitespace(' '));
    assert!(is_whitespace('\t'));
    assert!(is_whitespace('\u{3000}'));
    assert!(!is_whitespace('a'));
    assert_eq!(trimmed(&cs("  a b \n")), cs("a b"));
    assert_eq!(trimmed(&cs("   ")), cs(""));
    assert_eq!(slice_of(&cs("hello"), 1, 3), cs("el"));
    assert_eq!(string_of(&cs("hé")), "hé");
    assert!(same_chars(&cs("ab"), &cs("ab")));
    assert!(!same_chars(&cs("ab"), &cs("abc")));
    assert!(has_prefix(&cs("Symbol table"), &cs("Symbol")));
    assert!(!has_prefix(&cs("Sym"), &cs("Symbol")));
}

#[test]
fn lines_and_words() {
    assert_eq!(strings(&lines_of(&cs("a\nb\r\n\nc"))), vec!["a", "b", "", "c"]);
    assert_eq!(strings(&lines_of(&cs("a\n"))), vec!["a"]);
    assert_eq!(lines_of(&cs("")).len(), 0);
    assert_eq!(strings(&words_of(&cs("  x  yy\tz "))), vec!["x", "yy", "z"]);
    assert_eq!(strings(&split_chars(&cs("a!b!!c"), '!')), vec!["a", "b", "", "c"]);
    assert_eq!(find(&cs("abcabc"), &cs("ca")), Some(2));
    assert_eq!(find(&cs("abc"), &cs("x")), None);
    assert_eq!(find(&cs("abc"), &cs("")), Some(0));
}

#[test]
fn integers_with_a_radix() {
    assert_eq!(parse_usize(&cs("ffff"), 16), Some(0xffff));
    assert_eq!(parse_usize(&cs("FF"), 16), Some(0xff));
    assert_eq!(parse_usize(&cs("+12"), 10), Some(12));
    assert_eq!(parse_usize(&cs("12a"), 10), None);
    assert_eq!(parse_usize(&cs(""), 10), None);
    assert_eq!(parse_usize(&cs("+"), 10), None);
    assert_eq!(parse_usize(&cs("-1"), 10), None);
    assert_eq!(parse_usize(&cs("18446744073709551615"), 10), Some(usize::MAX));
    assert_eq!(parse_usize(&cs("18446744073709551616"), 10), None);
    assert_eq!(parse_usize(&cs("z"), 36), Some(35));
}

#[test]
fn canonical_addresses() {
    assert_eq!(virtual_address(0x1000), Ok(0x1000));
    assert_eq!(virtual_address(0xFFFF_8000_0000_0000), Ok(0xFFFF_8000_0000_0000));
    assert_eq!(
        virtual_address(0x0000_8000_0000_0000),
        Err("VirtualAddress bits 48-63 must be a sign-extension of bit 47")
    );
    let r = PagesRange { start: 0x1000, size: 0x2000 };
    assert_eq!(r.offset_of_address(0x1000), Some(0));
    assert_eq!(r.offset_of_address(0x2FFF), Some(0x1FFF));
    assert_eq!(r.offset_of_address(0x3000), None);
    assert_eq!(r.offset_of_address(0xFFF), None);
    assert_eq!(r.address_at_offset(0x10), Some(0x1010));
    assert_eq!(r.address_at_offset(0x2000), None);
}

#[test]
fn symbol_table_columns() {
    assert_eq!(parse_section_ndx(&cs("  [ 7] .text  PROGBITS")), Some(7));
    assert_eq!(parse_section_ndx(&cs("no brackets")), None);
    assert_eq!(parse_section_vaddr_size(&cs(".eh_frame PROGBITS ffffffff80123000 123000 000100 00 A 0 0 8")), Some((0xffffffff80123000, 0x100)));
    assert_eq!(parse_section_vaddr_size(&cs(".eh_frame PROGBITS zz 0 10")), None);
    assert_eq!(parse_size_column(&cs("42")), Some(42));
    assert_eq!(parse_size_column(&cs("0x2a")), Some(42));
    assert_eq!(parse_size_column(&cs("x")), None);
    let cols = columns_of(&cs("   12: ffffffff80100000    16 FUNC    GLOBAL DEFAULT    1 my_crate::f::h1 with spaces"));
    assert_eq!(
        strings(&cols),
        vec!["12:", "ffffffff80100000", "16", "FUNC", "GLOBAL", "DEFAULT", "1", "my_crate::f::h1 with spaces"]
    );
}

fn pages() -> NanoCorePages {
    NanoCorePages {
        text: PagesRange { start: 0xFFFF_FFFF_8010_0000, size: 0x10000 },
        rodata: PagesRange { start: 0xFFFF_FFFF_8020_0000, size: 0x10000 },
        data: PagesRange { start: 0xFFFF_FFFF_8030_0000, size: 0x10000 },
    }
}

const SYMBOL_TEXT: &str = "There are 6 section headers, starting at offset 0x1000:

Section Headers:
  [Nr] Name              Type             Address           Offset
       Size              EntSize          Flags  Link  Info  Align
  [ 1] .text             PROGBITS         ffffffff80100000  00001000
  [ 2] .rodata           PROGBITS         ffffffff80200000  00002000
  [ 3] .eh_frame         PROGBITS         ffffffff80200100 00002100 000040 00 A 0 0 8
  [ 4] .data             PROGBITS         ffffffff80300000  00003000
  [ 5] .bss              NOBITS           ffffffff80300100  00003100

Symbol table '.symtab' contains 5 entries:
   Num:    Value          Size Type    Bind   Vis      Ndx Name
     0: 0000000000000000     0 NOTYPE  LOCAL  DEFAULT  UND 
     1: ffffffff80100010    32 FUNC    GLOBAL DEFAULT    1 nano_core::main::h0123
     2: ffffffff80200010     8 OBJECT  LOCAL  DEFAULT    2 nano_core::CONST::habcd
     3: ffffffff80300010     4 OBJECT  GLOBAL DEFAULT    4 nano_core::DATA::h1111
     4: ffffffff80300110 0x10 OBJECT  GLOBAL DEFAULT    5 nano_core::BSS::h2222
";

#[test]
fn nano_core_symbol_text_is_parsed() {
    let items = parse_nano_core_symbol_text(SYMBOL_TEXT, &pages()).unwrap();
    assert_eq!(items.sections.len(), 5);
    let eh = &items.sections[0];
    assert_eq!(eh.typ, SectionType::EhFrame);
    assert_eq!(eh.name, ".eh_frame");
    assert_eq!(eh.virt_addr, 0xffffffff80200100);
    assert_eq!(eh.size, 0x40);
    assert_eq!(eh.mapped_pages_offset, 0x100);
    assert!(!eh.global);
    let main = &items.sections[1];
    assert_eq!(main.typ, SectionType::Text);
    assert_eq!(main.name, "nano_core::main::h0123");
    assert_eq!(main.pages, PagesKind::Text);
    assert_eq!(main.mapped_pages_offset, 0x10);
    assert_eq!(main.size, 32);
    assert!(main.global);
    assert_eq!(items.sections[2].typ, SectionType::Rodata);
    assert_eq!(items.sections[3].typ, SectionType::Data);
    assert_eq!(items.sections[4].typ, SectionType::Bss);
    assert_eq!(items.sections[4].size, 0x10);
    assert_eq!(items.global_sections, vec![1, 3, 4]);
    assert_eq!(items.data_sections, vec![3, 4]);
}

#[test]
fn nano_core_symbol_text_errors() {
    let no_text = SYMBOL_TEXT.replace(".text             PROGBITS", ".texts            PROGBITS");
    assert_eq!(
        parse_nano_core_symbol_text(&no_text, &pages()).err(),
        Some("parse_nano_core_symbol_file(): couldn't find .text section index")
    );
    let bad_addr = SYMBOL_TEXT.replace("ffffffff80100010", "gfffffff80100010");
    assert_eq!(
        parse_nano_core_symbol_text(&bad_addr, &pages()).err(),
        Some("parse_nano_core_symbol_file(): couldn't parse virtual address (value column)")
    );
    let outside = SYMBOL_TEXT.replace("ffffffff80100010", "ffffffff80500010");
    assert_eq!(
        parse_nano_core_symbol_text(&outside, &pages()).err(),
        Some("nano_core text section wasn't covered by its mapped pages!")
    );
}

#[test]
fn nano_core_symbol_file_needs_a_c_string() {
    assert!(check_c_string(b"abc\0"));
    assert!(!check_c_string(b"abc"));
    assert!(!check_c_string(b"a\0bc\0"));
    assert!(!check_c_string(b""));
    let mut bytes = SYMBOL_TEXT.as_bytes().to_vec();
    assert_eq!(
        parse_nano_core_symbol_file(&bytes, &pages()).err(),
        Some("FromBytesWithNulError occurred when casting nano_core symbol file to CStr")
    );
    bytes.push(0);
    let items = parse_nano_core_symbol_file(&bytes, &pages()).unwrap();
    assert_eq!(items.sections.len(), 5);
    let bad = vec![0xFFu8, 0];
    assert_eq!(
        parse_nano_core_symbol_file(&bad, &pages()).err(),
        Some("Utf8Error occurred when parsing nano_core symbols CStr")
    );
    let items = parse_nano_core_file(Some("sym"), &bytes, &pages()).unwrap();
    assert_eq!(items.sections.len(), 5);
}

#[test]
fn tls_sections_are_laid_out() {
    let mut tls = TlsInitializer::empty();
    assert!(!tls.is_cache_fresh());
    assert_eq!(tls.get_data(&vec![]), None);
    // a static section of 8 bytes at offset 0 of 16 static bytes
    let (id0, vaddr0) = tls.add_existing_static_tls_section(SectionType::TlsData, 8, 0, 16).unwrap();
    assert_eq!(id0, 0);
    assert_eq!(vaddr0, (0usize).wrapping_sub(16));
    let (id1, vaddr1) = tls.add_existing_static_tls_section(SectionType::TlsBss, 8, 8, 16).unwrap();
    assert_eq!(id1, 1);
    assert_eq!(vaddr1, (0usize).wrapping_sub(8));
    // overlapping offsets are refused
    assert!(tls.add_existing_static_tls_section(SectionType::TlsBss, 1, 0, 16).is_err());
    // a range whose first and last bytes are free but whose middle is taken
    let mut other = TlsInitializer::empty();
    other.add_existing_static_tls_section(SectionType::TlsData, 2, 4, 16).unwrap();
    assert!(other.add_existing_static_tls_section(SectionType::TlsBss, 16, 0, 16).is_err());
    // an address value that is not canonical
    assert!(other.add_existing_static_tls_section(SectionType::TlsBss, 1, 0, 1usize << 50).is_err());
    assert!(other.add_existing_static_tls_section(SectionType::TlsBss, 2, 8, 16).is_ok());
    assert_eq!(tls.end_of_static_sections(), 16);
    // a dynamic section comes after the self pointer, aligned
    let (start, id2) = tls.add_new_dynamic_tls_section(SectionType::TlsData, 4, 16).unwrap();
    assert_eq!(start, 16);
    assert_eq!(id2, 2);
    assert_eq!(tls.num_sections(), 3);
    assert_eq!(tls.section(2).offset, 16);
    let data = vec![vec![1u8; 8], vec![], vec![7u8; 4]];
    let (image, ptr) = tls.get_data(&data).unwrap();
    assert_eq!(ptr, 16);
    assert!(tls.is_cache_fresh());
    let mut expected = vec![1u8; 8];
    expected.extend(vec![0u8; 8]); // .tbss
    expected.extend(vec![0u8; 8]); // the self pointer
    expected.extend(vec![0u8; 8]); // dynamic bytes before the section
    expected.extend(vec![7u8; 4]);
    assert_eq!(image, expected);
    tls.invalidate();
    assert!(!tls.is_cache_fresh());
}

#[test]
fn crates_and_sections_holding_an_address() {
    let crates = vec![
        CrateRegions { text: Some(PagesRange { start: 0x1000, size: 0x1000 }), rodata: None, data: None },
        CrateRegions {
            text: Some(PagesRange { start: 0x5000, size: 0x1000 }),
            rodata: Some(PagesRange { start: 0x6000, size: 0x1000 }),
            data: None,
        },
    ];
    assert_eq!(get_crate_containing_address(&crates, 0x1800, false), Some(0));
    assert_eq!(get_crate_containing_address(&crates, 0x5000, false), Some(1));
    assert_eq!(get_crate_containing_address(&crates, 0x6000, false), None);
    assert_eq!(get_crate_containing_address(&crates, 0x6000, true), Some(1));
    assert_eq!(get_crate_containing_address(&crates, 0x2000, true), None);
    let secs = vec![
        SectionSpan { typ: SectionType::Text, name: ".text".to_string(), virt_addr: 0x1000, size: 0x100 },
        SectionSpan { typ: SectionType::Text, name: "c::f::h1".to_string(), virt_addr: 0x1040, size: 0x20 },
        SectionSpan { typ: SectionType::Rodata, name: "c::K::h2".to_string(), virt_addr: 0x2000, size: 0x10 },
    ];
    assert_eq!(get_section_containing_address(&secs, 0x1050, false), Some((1, 0x10)));
    assert_eq!(get_section_containing_address(&secs, 0x1000, false), Some((0, 0)));
    assert_eq!(get_section_containing_address(&secs, 0x2004, false), None);
    assert_eq!(get_section_containing_address(&secs, 0x2004, true), Some((2, 4)));
    assert_eq!(get_section_containing_address(&secs, 0x1100, true), None);
}

#[test]
fn copied_crate_addresses() {
    let pages = CrateRegions {
        text: Some(PagesRange { start: 0x10000, size: 0x1000 }),
        rodata: None,
        data: Some(PagesRange { start: 0x30000, size: 0x1000 }),
    };
    assert_eq!(copied_section_address(SectionType::Text, 0x40, &pages), Ok(0x10040));
    assert_eq!(copied_section_address(SectionType::Bss, 0x8, &pages), Ok(0x30008));
    assert_eq!(
        copied_section_address(SectionType::Rodata, 0, &pages),
        Err("BUG: missing rodata pages in newly-copied crate")
    );
    assert_eq!(
        copied_section_address(SectionType::Text, 0x1000, &pages),
        Err("BUG: couldn't get virt_addr for new section")
    );
    let secs = vec![
        SectionToCopy { shndx: 3, typ: SectionType::Text, mapped_pages_offset: 0 },
        SectionToCopy { shndx: 5, typ: SectionType::Data, mapped_pages_offset: 0x10 },
    ];
    assert_eq!(copy_section_addresses(&secs, &pages), Ok(vec![(3, 0x10000), (5, 0x30010)]));
    let bad = vec![
        SectionToCopy { shndx: 3, typ: SectionType::Text, mapped_pages_offset: 0 },
        SectionToCopy { shndx: 4, typ: SectionType::Rodata, mapped_pages_offset: 0 },
    ];
    assert_eq!(copy_section_addresses(&bad, &pages), Err("BUG: missing rodata pages in newly-copied crate"));
    let copied = vec![(3usize, 0x10000usize), (5, 0x30010)];
    assert_eq!(internal_source_address(&copied, 5), Ok(0x30010));
    assert_eq!(
        internal_source_address(&copied, 4),
        Err("Couldn't get new section specified by an internal dependency's source_sec_shndx")
    );
    let deps = vec![
        RelocationEntry { typ: 1, addend: 0, offset: 0 },
        RelocationEntry { typ: 2, addend: 0, offset: 8 },
        RelocationEntry { typ: 10, addend: 0, offset: 16 },
        RelocationEntry { typ: 4, addend: 0, offset: 24 },
    ];
    assert_eq!(relocations_to_rewrite(&deps), vec![1, 3]);
}

#[test]
fn nano_core_symbols_are_added() {
    let mut bytes = SYMBOL_TEXT.as_bytes().to_vec();
    bytes.push(0);
    let mut ns = CrateNamespace::new("kernel".to_string());
    let (items, n) = parse_nano_core(&mut ns, 42, Some("sym"), &bytes, &pages()).unwrap();
    assert_eq!(items.sections.len(), 5);
    assert_eq!(n, 3);
    let symbols = ns.symbol_map();
    assert_eq!(symbols.get_symbol("nano_core::main::h0123"), Some(1));
    assert_eq!(symbols.get_symbol("nano_core::CONST::habcd"), None);
    assert_eq!(symbols.get_symbol("nano_core::BSS::h2222"), Some(4));
    let chain = vec![ns];
    assert_eq!(get_crate(&chain, "nano_core"), Some(42));
    let mut other = CrateNamespace::new("kernel".to_string());
    assert_eq!(
        parse_nano_core(&mut other, 42, Some("txt"), &bytes, &pages()).err(),
        Some("nano_core object file had unexpected file extension. Expected \".bin\" or \".sym\"")
    );
    let others = vec![other];
    assert_eq!(get_crate(&others, "nano_core"), None);
}

#[test]
fn dynamic_tls_sections_need_canonical_addresses() {
    let mut tls = TlsInitializer::empty();
    let (start, _) = tls.add_new_dynamic_tls_section(SectionType::TlsBss, 1usize << 48, 8).unwrap();
    assert_eq!(start, 8);
    // the next free offset, past 2^48, is not a canonical address
    assert!(tls.add_new_dynamic_tls_section(SectionType::TlsBss, 8, 8).is_err());
}
