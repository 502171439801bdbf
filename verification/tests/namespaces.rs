use theseus_kernel::namespace::{
    crate_names, get_crate, get_crate_and_namespace, get_crate_starting_with, get_crates_starting_with, CrateNamespace,
};
use theseus_kernel::namespace_dir::{
    crate_object_file_name, get_file_and_dir_names_starting_with, get_file_starting_with, get_files_starting_with,
};
use theseus_kernel::symbol_map::{get_symbol_from_backup_namespace, BackupMatch, SymbolMap, SymbolSection};

fn sec(name: &str, global: bool, section: usize) -> SymbolSection {
    SymbolSection { name: name.to_string(), global, section }
}

fn kernel_namespace() -> CrateNamespace {
    let mut ns = CrateNamespace::new("kernel".to_string());
    ns.add_loaded_crate(
        "my_crate-843a613894da0c24",
        1,
        &vec![sec("my_crate::foo::h1", true, 10), sec("my_crate::bar::h2", false, 11)],
    );
    ns.add_loaded_crate("my_crate_new-933a635894ce0f12", 2, &vec![sec("my_crate_new::baz::h3", true, 20)]);
    ns
}

#[test]
fn new_namespace_is_empty_and_exact() {
    let ns = CrateNamespace::new("apps".to_string());
    assert_eq!(ns.name(), "apps");
    assert!(!ns.fuzzy_symbol_matching());
    assert_eq!(ns.symbol_map().get_symbol("anything"), None);
    let chain = vec![ns];
    assert_eq!(get_crate(&chain, "anything"), None);
    assert!(crate_names(&chain, true).is_empty());
}

#[test]
fn fuzzy_matching_toggles() {
    let mut ns = CrateNamespace::new("apps".to_string());
    ns.enable_fuzzy_symbol_matching();
    assert!(ns.fuzzy_symbol_matching());
    assert_eq!(ns.name(), "apps");
    ns.disable_fuzzy_symbol_matching();
    assert!(!ns.fuzzy_symbol_matching());
}

#[test]
fn loaded_crate_adds_global_symbols_and_the_crate() {
    let mut ns = CrateNamespace::new("kernel".to_string());
    let n = ns.add_loaded_crate(
        "my_crate-843a613894da0c24",
        1,
        &vec![sec("my_crate::foo::h1", true, 10), sec("my_crate::bar::h2", false, 11)],
    );
    assert_eq!(n, 1);
    assert_eq!(ns.symbol_map().get_symbol("my_crate::foo::h1"), Some(10));
    assert_eq!(ns.symbol_map().get_symbol("my_crate::bar::h2"), None);
    // a symbol that is already there is replaced and not counted
    let n2 = ns.add_loaded_crate("other-1", 3, &vec![sec("my_crate::foo::h1", true, 30)]);
    assert_eq!(n2, 0);
    assert_eq!(ns.symbol_map().get_symbol("my_crate::foo::h1"), Some(30));
    let chain = vec![ns];
    assert_eq!(get_crate(&chain, "my_crate-843a613894da0c24"), Some(1));
    assert_eq!(get_crate(&chain, "other-1"), Some(3));
    assert_eq!(get_crate(&chain, "my_crate"), None);
}

#[test]
fn crates_starting_with_prefix() {
    let chain = vec![kernel_namespace()];
    let mut found: Vec<(String, usize, usize)> = get_crates_starting_with(&chain, "my_crate");
    found.sort();
    assert_eq!(
        found,
        vec![
            ("my_crate-843a613894da0c24".to_string(), 1, 0),
            ("my_crate_new-933a635894ce0f12".to_string(), 2, 0)
        ]
    );
    assert_eq!(get_crate_starting_with(&chain, "my_crate"), None);
    assert_eq!(
        get_crate_starting_with(&chain, "my_crate-"),
        Some(("my_crate-843a613894da0c24".to_string(), 1, 0))
    );
    assert_eq!(get_crate_starting_with(&chain, "nothing"), None);
}

#[test]
fn lookups_fall_back_on_the_recursive_namespace() {
    let mut apps = CrateNamespace::new("apps".to_string());
    apps.add_loaded_crate("hello-77", 7, &vec![sec("hello::main::h9", true, 70)]);
    let chain = vec![apps, kernel_namespace()];
    assert_eq!(get_crate_and_namespace(&chain, "hello-77"), Some((7, 0)));
    assert_eq!(get_crate_and_namespace(&chain, "my_crate_new-933a635894ce0f12"), Some((2, 1)));
    assert_eq!(get_crate(&chain, "missing"), None);
    let found = get_crates_starting_with(&chain, "");
    assert_eq!(found.len(), 3);
    assert_eq!(found[0], ("hello-77".to_string(), 7, 0));
    assert!(found[1].2 == 1 && found[2].2 == 1);
    assert_eq!(
        get_crate_starting_with(&chain, "my_crate_n"),
        Some(("my_crate_new-933a635894ce0f12".to_string(), 2, 1))
    );
}

#[test]
fn crate_names_of_one_or_all_namespaces() {
    let mut apps = CrateNamespace::new("apps".to_string());
    apps.add_loaded_crate("hello-77", 7, &vec![]);
    let chain = vec![apps, kernel_namespace()];
    assert_eq!(crate_names(&chain, false), vec!["hello-77".to_string()]);
    let all = crate_names(&chain, true);
    assert_eq!(all.len(), 3);
    assert_eq!(all[0], "hello-77");
    let mut rest: Vec<String> = all[1..].to_vec();
    rest.sort();
    assert_eq!(rest, vec!["my_crate-843a613894da0c24".to_string(), "my_crate_new-933a635894ce0f12".to_string()]);
}

#[test]
fn removing_an_app_crate_drops_its_symbols() {
    let mut ns = kernel_namespace();
    let removed = ns.remove_app_crate(
        "my_crate_new-933a635894ce0f12",
        &vec!["my_crate_new::baz::h3".to_string(), "never::added".to_string()],
    );
    assert!(removed);
    assert_eq!(ns.symbol_map().get_symbol("my_crate_new::baz::h3"), None);
    assert_eq!(ns.symbol_map().get_symbol("my_crate::foo::h1"), Some(10));
    let again = ns.remove_app_crate("my_crate_new-933a635894ce0f12", &vec!["my_crate::foo::h1".to_string()]);
    assert!(!again);
    assert_eq!(ns.symbol_map().get_symbol("my_crate::foo::h1"), Some(10));
    let chain = vec![ns];
    assert_eq!(get_crate(&chain, "my_crate_new-933a635894ce0f12"), None);
    assert_eq!(get_crate(&chain, "my_crate-843a613894da0c24"), Some(1));
}

#[test]
fn clone_on_write_copies_and_then_diverges() {
    let mut ns = kernel_namespace();
    ns.enable_fuzzy_symbol_matching();
    let mut copy = ns.clone_on_write();
    assert_eq!(copy.name(), "kernel");
    assert!(copy.fuzzy_symbol_matching());
    assert_eq!(copy.symbol_map().get_symbol("my_crate::foo::h1"), Some(10));
    copy.add_loaded_crate("extra-1", 9, &vec![sec("extra::x::h1", true, 90)]);
    assert_eq!(copy.symbol_map().get_symbol("extra::x::h1"), Some(90));
    assert_eq!(ns.symbol_map().get_symbol("extra::x::h1"), None);
    let first = vec![ns];
    assert_eq!(get_crate(&first, "extra-1"), None);
    let copied = vec![copy];
    assert_eq!(get_crate(&copied, "my_crate-843a613894da0c24"), Some(1));
}

#[test]
fn object_file_names_drop_the_crate_type_prefix() {
    assert_eq!(crate_object_file_name("k#keyboard-36be916209949cef.o"), "keyboard-36be916209949cef.o");
    assert_eq!(crate_object_file_name("keyboard-36be916209949cef.o"), "keyboard-36be916209949cef.o");
    assert_eq!(crate_object_file_name("a#ps.o"), "ps.o");
    assert_eq!(crate_object_file_name("ksse#my_crate.o"), "my_crate.o");
    assert_eq!(crate_object_file_name("x#odd.o"), "x#odd.o");
}

#[test]
fn directory_entries_starting_with_a_prefix() {
    let names: Vec<String> = vec!["serial-1.o", "serial_port-2.o", "subdir", "keyboard-3.o"]
        .into_iter()
        .map(String::from)
        .collect();
    let is_file = vec![true, true, false, true];
    assert_eq!(
        get_file_and_dir_names_starting_with(&names, "s"),
        vec!["serial-1.o".to_string(), "serial_port-2.o".to_string(), "subdir".to_string()]
    );
    assert_eq!(get_files_starting_with(&names, &is_file, "s"), vec![0, 1]);
    assert_eq!(get_file_starting_with(&names, &is_file, "s"), None);
    assert_eq!(get_file_starting_with(&names, &is_file, "serial-"), Some(0));
    assert_eq!(get_file_starting_with(&names, &is_file, "subdir"), None);
    assert_eq!(get_file_starting_with(&names, &is_file, "keyboard"), Some(3));
}

#[test]
fn a_backup_symbol_is_adopted_with_its_crate() {
    let mut backup = SymbolMap::new();
    backup.add_symbol("my_crate::foo::h843a613894da0c24", 5);
    let found: BackupMatch = get_symbol_from_backup_namespace(&vec![backup], "my_crate::foo::h0000", true).unwrap();
    assert_eq!(found.section, 5);
    let mut ns = CrateNamespace::new("apps".to_string());
    ns.adopt_backup_symbol(&found, true, "my_crate-843a613894da0c24", 8);
    assert_eq!(ns.symbol_map().get_symbol("my_crate::foo::h843a613894da0c24"), Some(5));
    assert_eq!(ns.symbol_map().get_symbol("my_crate::foo::h0000"), None);
    let chain = vec![ns];
    assert_eq!(get_crate(&chain, "my_crate-843a613894da0c24"), Some(8));
    // a section that is not global gives no symbol, but its crate is kept
    let mut other = CrateNamespace::new("apps".to_string());
    other.adopt_backup_symbol(&found, false, "my_crate-843a613894da0c24", 8);
    assert_eq!(other.symbol_map().get_symbol("my_crate::foo::h843a613894da0c24"), None);
    assert_eq!(get_crate(&vec![other], "my_crate-843a613894da0c24"), Some(8));
}
