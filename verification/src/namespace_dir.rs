//! The choices that a namespace's directory of crate object files makes
//! among the names of its entries: which names start with a prefix, which
//! single file a prefix picks out, and which file a crate module name stands
//! for. Listing and opening the entries is left to the caller.

use vstd::prelude::*;
use crate::crate_type::{crate_type_of_char, only_at, CrateType};
use crate::section_loader::{has_prefix, starts_with};

verus! {

/// The names of the strings of `s`.
pub open spec fn name_views(s: Seq<String>) -> Seq<Seq<char>> {
    s.map_values(|x: String| x@)
}

/// The names among the first `n` of `names` that start with `prefix`, in
/// their order.
pub open spec fn prefixed(names: Seq<Seq<char>>, prefix: Seq<char>, n: int) -> Seq<Seq<char>>
    decreases n,
{
    if n <= 0 {
        Seq::empty()
    } else if has_prefix(names[n - 1], prefix) {
        prefixed(names, prefix, n - 1).push(names[n - 1])
    } else {
        prefixed(names, prefix, n - 1)
    }
}

/// Returns the names among a directory's entry names `names` that start
/// with `prefix`, in their order.
pub fn get_file_and_dir_names_starting_with(names: &Vec<String>, prefix: &str) -> (r: Vec<String>)
    ensures
        name_views(r@) == prefixed(name_views(names@), prefix@, names@.len() as int),
{
    let ghost all = name_views(names@);
    let mut r: Vec<String> = Vec::new();
    let mut i: usize = 0;
    while i < names.len()
        invariant
            i <= names@.len(),
            all == name_views(names@),
            name_views(r@) == prefixed(all, prefix@, i as int),
        decreases names@.len() - i,
    {
        let ghost before = r@;
        if starts_with(names[i].as_str(), prefix) {
            r.push(names[i].clone());
            proof {
                assert(name_views(r@) =~= name_views(before).push(names@[i as int]@));
            }
        }
        proof {
            assert(all[i as int] == names@[i as int]@);
        }
        i = i + 1;
    }
    r
}

/// The positions of the entries that are files (by `is_file`) and whose
/// names start with `prefix`, among the first `n`, in their order.
pub open spec fn matching_files(names: Seq<Seq<char>>, is_file: Seq<bool>, prefix: Seq<char>, n: int) -> Seq<int>
    decreases n,
{
    if n <= 0 {
        Seq::empty()
    } else if is_file[n - 1] && has_prefix(names[n - 1], prefix) {
        matching_files(names, is_file, prefix, n - 1).push(n - 1)
    } else {
        matching_files(names, is_file, prefix, n - 1)
    }
}

/// Returns the positions of a directory's entries (named `names`, files
/// where `is_file` says so) that are files whose names start with
/// `prefix`, in their order.
pub fn get_files_starting_with(names: &Vec<String>, is_file: &Vec<bool>, prefix: &str) -> (r: Vec<usize>)
    requires
        is_file@.len() == names@.len(),
    ensures
        r@.map_values(|i: usize| i as int) == matching_files(name_views(names@), is_file@, prefix@, names@.len() as int),
{
    let ghost all = name_views(names@);
    let mut r: Vec<usize> = Vec::new();
    let mut i: usize = 0;
    while i < names.len()
        invariant
            i <= names@.len(),
            is_file@.len() == names@.len(),
            all == name_views(names@),
            r@.map_values(|k: usize| k as int) == matching_files(all, is_file@, prefix@, i as int),
        decreases names@.len() - i,
    {
        let ghost before = r@;
        if is_file[i] && starts_with(names[i].as_str(), prefix) {
            r.push(i);
            proof {
                assert(r@.map_values(|k: usize| k as int) =~= before.map_values(|k: usize| k as int).push(i as int));
            }
        }
        proof {
            assert(all[i as int] == names@[i as int]@);
        }
        i = i + 1;
    }
    r
}

/// Returns the position of the one file whose name starts with `prefix`,
/// where exactly one does.
pub fn get_file_starting_with(names: &Vec<String>, is_file: &Vec<bool>, prefix: &str) -> (r: Option<usize>)
    requires
        is_file@.len() == names@.len(),
    ensures
        ({
            let m = matching_files(name_views(names@), is_file@, prefix@, names@.len() as int);
            if m.len() == 1 {
                r matches Some(i) && i == m[0]
            } else {
                r is None
            }
        }),
{
    let found = get_files_starting_with(names, is_file, prefix);
    if found.len() == 1 {
        proof {
            assert(found@.map_values(|i: usize| i as int)[0] == found@[0] as int);
        }
        Some(found[0])
    } else {
        None
    }
}

/// Whether `s` has a single `#` after a first character that names a crate
/// type, so that it is a module name with a crate-type prefix.
pub open spec fn has_type_prefix(s: Seq<char>) -> bool {
    exists|h: int| #[trigger] only_at(s, '#', h) && h > 0 && crate_type_of_char(s[0]) is Some
}

/// Returns the name of the object file that the crate module name
/// `module_name` stands for: the part after the `#` of its crate-type
/// prefix, where it has one (as in `k#keyboard-36be916209949cef.o`), else
/// the whole name.
pub fn crate_object_file_name(module_name: &str) -> (r: &str)
    ensures
        forall|h: int|
            #![trigger only_at(module_name@, '#', h)]
            only_at(module_name@, '#', h) && h > 0 && crate_type_of_char(module_name@[0]) is Some ==> r@
                == module_name@.subrange(h + 1, module_name@.len() as int),
        !has_type_prefix(module_name@) ==> r@ == module_name@,
{
    match CrateType::from_module_name(module_name) {
        Ok((_t, _p, name)) => name,
        Err(_) => {
            proof {
                assert forall|h: int| #[trigger] only_at(module_name@, '#', h) implies !(h > 0 && crate_type_of_char(
                    module_name@[0],
                ) is Some) by {}
            }
            module_name
        },
    }
}

} // verus!
