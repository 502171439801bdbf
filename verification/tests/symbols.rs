use theseus_kernel::symbol_map::{
    get_symbol_and_namespace, get_symbol_starting_with, symbol_map, SymbolMap, SymbolSection,
};

fn sec(name: &str, global: bool, section: usize) -> SymbolSection {
    SymbolSection { name: name.to_string(), global, section }
}

#[test]
fn symbols_are_added_and_replaced() {
    let mut m = SymbolMap::new();
    assert!(m.add_symbol("my_crate::foo::h843a613894da0c24", 1));
    assert_eq!(m.get_symbol("my_crate::foo::h843a613894da0c24"), Some(1));
    assert!(!m.add_symbol("my_crate::foo::h843a613894da0c24", 2));
    assert_eq!(m.get_symbol("my_crate::foo::h843a613894da0c24"), Some(2));
    assert_eq!(m.get_symbol("my_crate::foo"), None);
}

#[test]
fn only_new_global_symbols_are_counted() {
    let mut m = SymbolMap::new();
    m.add_symbol("a::x::h1", 9);
    let secs = vec![sec("a::x::h1", true, 1), sec("a::y::h2", true, 2), sec("a::z::h3", false, 3), sec("a::y::h2", true, 4)];
    assert_eq!(m.add_symbols(&secs), 1);
    assert_eq!(m.get_symbol("a::x::h1"), Some(1));
    assert_eq!(m.get_symbol("a::y::h2"), Some(4));
    assert_eq!(m.get_symbol("a::z::h3"), None);
    let more = vec![sec("b::p::h5", true, 5), sec("b::q::h6", true, 6)];
    assert_eq!(m.add_symbols_filtered(&more, &vec![false, true]), 1);
    assert_eq!(m.get_symbol("b::p::h5"), None);
    assert_eq!(m.get_symbol("b::q::h6"), Some(6));
}

#[test]
fn symbols_by_prefix() {
    let mut m = SymbolMap::new();
    m.add_symbol("my_crate::foo::h843a613894da0c24", 1);
    m.add_symbol("my_crate::foo::h933a635894ce0f12", 2);
    m.add_symbol("my_crate::foo_new::h111", 3);
    m.add_symbol("other::bar::h222", 4);
    let mut found = m.find_symbols_starting_with("my_crate::foo");
    found.sort();
    assert_eq!(
        found,
        vec![
            ("my_crate::foo::h843a613894da0c24".to_string(), 1),
            ("my_crate::foo::h933a635894ce0f12".to_string(), 2),
            ("my_crate::foo_new::h111".to_string(), 3),
        ]
    );
    assert_eq!(m.get_symbol_starting_with("my_crate::foo"), None);
    assert_eq!(m.get_symbol_starting_with("my_crate::foo_new"), Some(3));
    assert_eq!(m.get_symbol_starting_with("other::"), Some(4));
    assert_eq!(m.get_symbol_starting_with("missing"), None);
    assert_eq!(m.find_symbols_starting_with("").len(), 4);
}

#[test]
fn later_sections_replace_earlier_ones_in_a_crate_map() {
    let secs = vec![sec("a::f::h1", false, 1), sec("a::g::h2", true, 2), sec("a::f::h1", true, 3)];
    let m = symbol_map(&secs, &vec![true, false, true]);
    assert_eq!(m.get_symbol("a::f::h1"), Some(3));
    assert_eq!(m.get_symbol("a::g::h2"), None);
}

#[test]
fn namespaces_fall_back_on_their_recursive_namespace() {
    let mut app = SymbolMap::new();
    app.add_symbol("app::main::h1", 10);
    app.add_symbol("shared::f::h2", 11);
    let mut kernel = SymbolMap::new();
    kernel.add_symbol("shared::f::h2", 20);
    kernel.add_symbol("kernel::init::h3", 21);
    let chain = vec![app, kernel];
    assert_eq!(get_symbol_and_namespace(&chain, "shared::f::h2"), Some((11, 0)));
    assert_eq!(get_symbol_and_namespace(&chain, "kernel::init::h3"), Some((21, 1)));
    assert_eq!(get_symbol_and_namespace(&chain, "nothing"), None);
    // a single match in one namespace only
    assert_eq!(get_symbol_starting_with(&chain, "kernel::"), Some(21));
    assert_eq!(get_symbol_starting_with(&chain, "app::"), Some(10));
    // one match in each namespace is two matches across the chain
    assert_eq!(get_symbol_starting_with(&chain, "shared::"), None);
    // two matches in the first namespace and one in the next give none
    let mut first = SymbolMap::new();
    first.add_symbol("my_crate::foo::h843a613894da0c24", 1);
    first.add_symbol("my_crate::foo_new::h933a635894ce0f12", 2);
    let mut second = SymbolMap::new();
    second.add_symbol("my_crate::foo_x::h1", 3);
    let chain2 = vec![first, second];
    assert_eq!(get_symbol_starting_with(&chain2, "my_crate::foo"), None);
    assert_eq!(get_symbol_starting_with(&chain2, "my_crate::foo_x"), Some(3));
}

use theseus_kernel::symbol_map::{
    find_symbols_starting_with_and_namespace, get_symbol_from_backup_namespace, get_symbol_or_load as resolve,
    SymbolLookup,
};

fn map(entries: &[(&str, usize)]) -> SymbolMap {
    let mut m = SymbolMap::new();
    for (n, s) in entries {
        m.add_symbol(n, *s);
    }
    m
}

#[test]
fn matches_across_namespaces() {
    let chain = vec![map(&[("a::f::h1", 1), ("b::g::h2", 2)]), map(&[("a::f::h3", 3)])];
    let mut found = find_symbols_starting_with_and_namespace(&chain, "a::f::");
    found.sort_by(|x, y| (x.2, x.0.clone()).cmp(&(y.2, y.0.clone())));
    assert_eq!(found, vec![("a::f::h1".to_string(), 1, 0), ("a::f::h3".to_string(), 3, 1)]);
}

#[test]
fn backup_namespace_exact_and_fuzzy() {
    let backup = vec![map(&[("dep::run::h1111", 7)]), map(&[("dep::stop::h2222", 8), ("dep::stop2::h3333", 9)])];
    let m = get_symbol_from_backup_namespace(&backup, "dep::run::h1111", false).unwrap();
    assert_eq!((m.name.as_str(), m.section, m.namespace), ("dep::run::h1111", 7, 0));
    assert!(get_symbol_from_backup_namespace(&backup, "dep::run::h9999", false).is_none());
    // fuzzy matching ignores the hash
    let m = get_symbol_from_backup_namespace(&backup, "dep::run::h9999", true).unwrap();
    assert_eq!((m.name.as_str(), m.section, m.namespace), ("dep::run::h1111", 7, 0));
    let m = get_symbol_from_backup_namespace(&backup, "dep::stop::h0000", true).unwrap();
    assert_eq!((m.name.as_str(), m.section, m.namespace), ("dep::stop::h2222", 8, 1));
    // "dep::stop" without the `::h` delimiter would match two symbols
    let both = vec![map(&[("dep::x::h1", 1)]), map(&[("dep::x::h2", 2)])];
    assert!(get_symbol_from_backup_namespace(&both, "dep::x::h3", true).is_none());
}

#[test]
fn where_a_symbol_comes_from() {
    let own = vec![map(&[("app::main::h1", 1)])];
    let backup = vec![map(&[("dep::run::h1111", 7)])];
    assert!(matches!(resolve(&own, Some(&backup), false, "app::main::h1"), SymbolLookup::Found { section: 1, namespace: 0 }));
    match resolve(&own, Some(&backup), false, "dep::run::h1111") {
        SymbolLookup::FromBackup(m) => assert_eq!((m.section, m.namespace), (7, 0)),
        _ => panic!("expected the backup namespace"),
    }
    assert!(matches!(resolve(&own, Some(&backup), false, "dep::run::h2"), SymbolLookup::Missing));
    match resolve(&own, Some(&backup), true, "dep::run::h2") {
        SymbolLookup::FromBackup(m) => assert_eq!(m.name, "dep::run::h1111"),
        _ => panic!("expected a fuzzy match"),
    }
    assert!(matches!(resolve(&own, None, true, "dep::run::h1111"), SymbolLookup::Missing));
}
