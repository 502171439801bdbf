//! Sorting the modules that the bootloader loaded into the files of the
//! initial file system: crate object files go to the directory of their
//! namespace, other files to the extra files' directory under the path that
//! their name encodes.

use vstd::prelude::*;
use crate::crate_type::CrateType;
use crate::symbol_text::{split_from, split_chars, views_of, string_of};
use crate::text::chars_of;
use crate::section_loader::str_eq;

verus! {

/// The name of the directory that holds the namespaces' directories.
pub const NAMESPACES_DIRECTORY_NAME: &'static str = "namespaces";
/// The name of the directory that holds the extra files.
pub const EXTRA_FILES_DIRECTORY_NAME: &'static str = "extra_files";
/// The character that stands for the path delimiter in an extra file's name.
pub const EXTRA_FILES_DIRECTORY_DELIMITER: char = '!';
/// The name of the module that archives all the others.
pub const MODULES_ARCHIVE_NAME: &'static str = "modules.cpio.lz4";

/// Where an extra file goes: the directories below the extra files'
/// directory, outermost first, and its name.
pub struct ExtraFilePath {
    pub dirs: Vec<String>,
    pub file_name: String,
}

/// The path that an extra file's name encodes: the pieces between the
/// delimiters are directories, the last piece is the file's name.
pub open spec fn extra_path_spec(name: Seq<char>) -> (Seq<Seq<char>>, Seq<char>) {
    let parts = split_from(name, '!', 0);
    (parts.drop_last(), parts.last())
}

/// `split_from` always yields a piece.
proof fn lemma_split_nonempty(t: Seq<char>, c: char, i: int)
    requires
        0 <= i <= t.len(),
    ensures
        split_from(t, c, i).len() >= 1,
{
    crate::symbol_text::lemma_index_from(t, c, i);
}

/// Decodes the path of an extra file from its name.
pub fn extra_file_path(name: &str) -> (r: ExtraFilePath)
    ensures
        views_of_strings(r.dirs@) == extra_path_spec(name@).0,
        r.file_name@ == extra_path_spec(name@).1,
{
    let cs = chars_of(name);
    let parts = split_chars(&cs, '!');
    proof {
        lemma_split_nonempty(cs@, '!', 0);
    }
    let n = parts.len();
    let mut dirs: Vec<String> = Vec::new();
    let mut i: usize = 0;
    while i + 1 < n
        invariant
            1 <= n == parts@.len(),
            i + 1 <= n,
            views_of(parts@) == split_from(name@, '!', 0),
            views_of_strings(dirs@) == views_of(parts@).subrange(0, i as int),
        decreases n - i,
    {
        let d = string_of(&parts[i]);
        let ghost before = views_of_strings(dirs@);
        dirs.push(d);
        assert(views_of_strings(dirs@) =~= before.push(d@));
        assert(views_of(parts@).subrange(0, i + 1) =~= views_of(parts@).subrange(0, i as int).push(
            parts@[i as int]@,
        ));
        i = i + 1;
    }
    let file_name = string_of(&parts[n - 1]);
    assert(views_of(parts@).drop_last() =~= views_of(parts@).subrange(0, n - 1));
    ExtraFilePath { dirs, file_name }
}

/// The views of the strings in `v`.
pub open spec fn views_of_strings(v: Seq<String>) -> Seq<Seq<char>> {
    v.map_values(|x: String| x@)
}

/// What a bootloader module is.
pub enum ModuleKind {
    /// The archive of all other modules, which must be unpacked
    Archive,
    /// A crate object file of the given type, for the namespace of the given
    /// prefix, with the given file name
    Crate { crate_type: CrateType, prefix: String, file_name: String },
    /// Any other file, stored under the path its name encodes
    Extra(ExtraFilePath),
}

/// Whether `k` is what a module of name `name` is, other than the archive:
/// a crate object file where the name splits into a crate type, a
/// namespace prefix and a file name, an extra file otherwise.
pub open spec fn kind_for_name(k: ModuleKind, name: Seq<char>) -> bool {
    match CrateType::module_name_spec(name) {
        Some((t, p, f)) => k matches ModuleKind::Crate { crate_type, prefix, file_name } && crate_type == t
            && prefix@ == p && file_name@ == f,
        None => k matches ModuleKind::Extra(path) && views_of_strings(path.dirs@) == extra_path_spec(name).0
            && path.file_name@ == extra_path_spec(name).1,
    }
}

/// Sorts a module that is not the archive: a crate object file or an extra file.
fn classify_file(name: &str) -> (r: ModuleKind)
    ensures
        kind_for_name(r, name@),
{
    let parsed = CrateType::from_module_name(name);
    proof {
        if exists|h: int| crate::crate_type::only_at(name@, '#', h) {
            let h = choose|h: int| crate::crate_type::only_at(name@, '#', h);
            assert(crate::crate_type::only_at(name@, '#', h));
        }
    }
    match parsed {
        Ok((t, p, f)) => ModuleKind::Crate { crate_type: t, prefix: p.to_owned(), file_name: f.to_owned() },
        Err(_) => ModuleKind::Extra(extra_file_path(name)),
    }
}

/// Sorts the bootloader module `name`: the module archive, a crate object
/// file (whose name splits into a crate type, a namespace prefix and a file
/// name), or an extra file.
pub fn classify_module(name: &str) -> (r: ModuleKind)
    ensures
        name@ == MODULES_ARCHIVE_NAME@ ==> r is Archive,
        name@ != MODULES_ARCHIVE_NAME@ ==> kind_for_name(r, name@),
{
    if crate::section_loader::str_eq(name, MODULES_ARCHIVE_NAME) {
        return ModuleKind::Archive;
    }
    classify_file(name)
}

/// The bytes that `lz4_flex::block::decompress_size_prepended` gives for
/// `input` (whose first four bytes hold the size of the result), or `None`
/// where it reports an error.
pub uninterp spec fn lz4_decompressed(input: Seq<u8>) -> Option<Seq<u8>>;

/// The name and contents of each file, in order, that
/// `cpio_reader::iter_files` yields from the archive `archive`.
pub uninterp spec fn cpio_files(archive: Seq<u8>) -> Seq<(Seq<char>, Seq<u8>)>;

/// Calls `lz4_flex::block::decompress_size_prepended`; `None` where it
/// fails. The contract names the result. Not stated: it first allocates as
/// many bytes as the size prefix announces, which can exhaust memory.
#[verifier::external_body]
fn decompress_archive(input: &[u8]) -> (r: Option<Vec<u8>>)
    ensures
        match lz4_decompressed(input@) {
            None => r is None,
            Some(b) => r matches Some(v) && v@ == b,
        },
{
    lz4_flex::block::decompress_size_prepended(input).ok()
}

/// Calls `cpio_reader::iter_files` and hands out each entry's name and
/// contents; it stops at the first entry whose header is corrupt. The
/// contract names the result.
#[verifier::external_body]
fn archive_files(archive: &[u8]) -> (r: Vec<(String, Vec<u8>)>)
    ensures
        r@.map_values(|e: (String, Vec<u8>)| (e.0@, e.1@)) == cpio_files(archive@),
{
    cpio_reader::iter_files(archive).map(|e| (String::from(e.name()), e.file().to_vec())).collect()
}

/// A module taken out of the archive: what it is and its contents.
pub struct ArchivedModule {
    pub kind: ModuleKind,
    pub contents: Vec<u8>,
}

/// Unpacks the module archive `bytes` (an lz4-compressed cpio archive) and
/// sorts each file in it, in order, as a crate object file or an extra file.
pub fn extract_modules_archive(bytes: &[u8]) -> (r: Result<Vec<ArchivedModule>, &'static str>)
    ensures
        match lz4_decompressed(bytes@) {
            None => r matches Err(e) && e@ == "lz4 decompression of bootloader modules failed"@,
            Some(tar) => r matches Ok(v) && v@.len() == cpio_files(tar).len() && forall|i: int|
                0 <= i < v@.len() ==> kind_for_name(#[trigger] v@[i].kind, cpio_files(tar)[i].0)
                    && v@[i].contents@ == cpio_files(tar)[i].1,
        },
{
    let tar = match decompress_archive(bytes) {
        Some(t) => t,
        None => {
            return Err("lz4 decompression of bootloader modules failed");
        },
    };
    let files = archive_files(tar.as_slice());
    let ghost fs = cpio_files(tar@);
    proof {
        assert(files@.len() == fs.len()) by {
            assert(files@.map_values(|e: (String, Vec<u8>)| (e.0@, e.1@)).len() == files@.len());
        }
    }
    let mut out: Vec<ArchivedModule> = Vec::new();
    let mut i: usize = 0;
    while i < files.len()
        invariant
            i <= files@.len(),
            files@.len() == fs.len(),
            files@.map_values(|e: (String, Vec<u8>)| (e.0@, e.1@)) == fs,
            out@.len() == i,
            forall|k: int|
                0 <= k < i ==> kind_for_name(#[trigger] out@[k].kind, fs[k].0) && out@[k].contents@ == fs[k].1,
        decreases files@.len() - i,
    {
        let (name, contents) = &files[i];
        proof {
            assert(files@.map_values(|e: (String, Vec<u8>)| (e.0@, e.1@))[i as int] == (name@, contents@));
        }
        let kind = classify_file(name.as_str());
        out.push(ArchivedModule { kind, contents: contents.clone() });
        i = i + 1;
    }
    Ok(out)
}


/// The error for boot modules among which no crate belongs to the kernel's
/// default namespace.
pub const NO_DEFAULT_NAMESPACE: &'static str = "BUG: no default namespace found";

/// The directory of the namespace that the module of kind `k` belongs to:
/// its namespace prefix followed by the default namespace name of its crate
/// type; none for a module that is not a crate object file.
pub open spec fn module_dir(k: ModuleKind) -> Option<Seq<char>> {
    match k {
        ModuleKind::Crate { crate_type, prefix, .. } => Some(prefix@ + crate_type.spec_default_namespace_name()),
        _ => None,
    }
}

/// Whether one of the first `bound` modules goes into the directory `n`.
pub open spec fn some_module_in(kinds: Seq<ModuleKind>, n: Seq<char>, bound: int) -> bool {
    exists|k: int| 0 <= k < bound && #[trigger] module_dir(kinds[k]) == Some(n)
}

/// The namespace directories that the boot modules make: their names, and
/// for each module the directory it goes into (none for a module that is not
/// a crate object file); `kernel` is the directory of the kernel's default
/// namespace.
pub struct NamespaceDirs {
    pub names: Vec<String>,
    pub module_dirs: Vec<Option<usize>>,
    pub kernel: usize,
}

/// Returns the name of the namespace directory of the crate of type `t`
/// with namespace prefix `prefix`.
pub fn namespace_dir_name(t: CrateType, prefix: &str) -> (r: String)
    ensures
        r@ == prefix@ + t.spec_default_namespace_name(),
{
    let mut cs = chars_of(prefix);
    let mut tail = chars_of(t.default_namespace_name());
    cs.append(&mut tail);
    string_of(&cs)
}

/// Groups the boot modules of kinds `kinds` into namespace directories:
/// each crate object file goes into the directory named by its namespace
/// prefix and the default namespace name of its crate type, one directory
/// per name. Fails with `NO_DEFAULT_NAMESPACE` where no module goes into
/// the kernel's default namespace directory, `_kernel`.
pub fn group_namespace_dirs(kinds: &Vec<ModuleKind>) -> (r: Result<NamespaceDirs, &'static str>)
    ensures
        (forall|i: int| 0 <= i < kinds@.len() ==> module_dir(#[trigger] kinds@[i]) != Some("_kernel"@)) <==> r is Err,
        r matches Err(e) ==> e@ == NO_DEFAULT_NAMESPACE@,
        r matches Ok(d) ==> {
            &&& d.module_dirs@.len() == kinds@.len()
            &&& d.kernel < d.names@.len() && d.names@[d.kernel as int]@ == "_kernel"@
            &&& forall|a: int, b: int| 0 <= a < b < d.names@.len() ==> (#[trigger] d.names@[a])@ != (#[trigger] d.names@[b])@
            &&& forall|i: int|
                0 <= i < kinds@.len() ==> match module_dir(#[trigger] kinds@[i]) {
                    None => d.module_dirs@[i] is None,
                    Some(n) => d.module_dirs@[i] matches Some(a) && a < d.names@.len() && d.names@[a as int]@ == n,
                }
        },
{
    let mut names: Vec<String> = Vec::new();
    let mut module_dirs: Vec<Option<usize>> = Vec::new();
    let mut i: usize = 0;
    while i < kinds.len()
        invariant
            i <= kinds@.len(),
            module_dirs@.len() == i,
            forall|a: int, b: int| 0 <= a < b < names@.len() ==> (#[trigger] names@[a])@ != (#[trigger] names@[b])@,
            forall|a: int| 0 <= a < names@.len() ==> some_module_in(kinds@, (#[trigger] names@[a])@, i as int),
            forall|k: int|
                0 <= k < i ==> match module_dir(#[trigger] kinds@[k]) {
                    None => module_dirs@[k] is None,
                    Some(n) => module_dirs@[k] matches Some(a) && a < names@.len() && names@[a as int]@ == n,
                },
        decreases kinds@.len() - i,
    {
        match &kinds[i] {
            ModuleKind::Crate { crate_type, prefix, .. } => {
                let name = namespace_dir_name(*crate_type, prefix.as_str());
                let mut a: usize = 0;
                let mut found: Option<usize> = None;
                while a < names.len()
                    invariant_except_break
                        found is None,
                    invariant
                        a <= names@.len(),
                        forall|b: int| 0 <= b < a ==> names@[b]@ != name@,
                    ensures
                        found matches Some(x) ==> x < names@.len() && names@[x as int]@ == name@,
                        found is None ==> forall|b: int| 0 <= b < names@.len() ==> names@[b]@ != name@,
                    decreases names@.len() - a,
                {
                    if str_eq(names[a].as_str(), name.as_str()) {
                        found = Some(a);
                        break;
                    }
                    a = a + 1;
                }
                let ghost before = names@;
                let ghost dirs_before = module_dirs@;
                match found {
                    Some(x) => {
                        module_dirs.push(Some(x));
                    },
                    None => {
                        module_dirs.push(Some(names.len()));
                        names.push(name);
                    },
                }
                proof {
                    assert(module_dir(kinds@[i as int]) == Some(name@));
                    assert forall|k: int| 0 <= k < i implies module_dirs@[k] == dirs_before[k] by {}
                    assert forall|k: int| 0 <= k < before.len() implies names@[k] == before[k] by {}
                    assert forall|a2: int| 0 <= a2 < names@.len() implies some_module_in(
                        kinds@,
                        (#[trigger] names@[a2])@,
                        i + 1,
                    ) by {
                        if a2 < before.len() {
                            assert(before[a2] == names@[a2]);
                            assert(some_module_in(kinds@, before[a2]@, i as int));
                            let k = choose|k: int| 0 <= k < i && #[trigger] module_dir(kinds@[k]) == Some(before[a2]@);
                            assert(module_dir(kinds@[k]) == Some(names@[a2]@));
                        } else {
                            assert(module_dir(kinds@[i as int]) == Some(names@[a2]@));
                        }
                    }
                }
            },
            _ => {
                let ghost dirs_before = module_dirs@;
                module_dirs.push(None);
                proof {
                    assert forall|k: int| 0 <= k < i implies module_dirs@[k] == dirs_before[k] by {}
                }
            },
        }
        i = i + 1;
    }
    proof {
        assert(i == kinds@.len());
    }
    let mut a: usize = 0;
    while a < names.len()
        invariant
            a <= names@.len(),
            module_dirs@.len() == kinds@.len(),
            forall|b: int| 0 <= b < a ==> names@[b]@ != "_kernel"@,
            forall|a1: int, b: int| 0 <= a1 < b < names@.len() ==> (#[trigger] names@[a1])@ != (#[trigger] names@[b])@,
            forall|a2: int| 0 <= a2 < names@.len() ==> some_module_in(kinds@, (#[trigger] names@[a2])@, kinds@.len() as int),
            forall|k: int|
                0 <= k < kinds@.len() ==> match module_dir(#[trigger] kinds@[k]) {
                    None => module_dirs@[k] is None,
                    Some(n) => module_dirs@[k] matches Some(x) && x < names@.len() && names@[x as int]@ == n,
                },
        decreases names@.len() - a,
    {
        if str_eq(names[a].as_str(), "_kernel") {
            proof {
                assert(some_module_in(kinds@, names@[a as int]@, kinds@.len() as int));
                let k = choose|k: int| 0 <= k < kinds@.len() && #[trigger] module_dir(kinds@[k]) == Some(names@[a as int]@);
                assert(module_dir(kinds@[k]) == Some("_kernel"@));
            }
            return Ok(NamespaceDirs { names, module_dirs, kernel: a });
        }
        a = a + 1;
    }
    proof {
        assert forall|k: int| 0 <= k < kinds@.len() implies module_dir(#[trigger] kinds@[k]) != Some("_kernel"@) by {
            match module_dir(kinds@[k]) {
                Some(n) => {
                    let x = module_dirs@[k]->0;
                    assert(names@[x as int]@ == n);
                },
                None => {},
            }
        }
    }
    Err(NO_DEFAULT_NAMESPACE)
}

} // verus!
