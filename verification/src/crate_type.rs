//! Crate types and the parsing of bootloader module names such as `k#my_crate.o`.

use crate::text::{chars_of, substring};
use vstd::prelude::*;

verus! {

/// The kind of a crate, given by the first character of its module name's prefix.
#[derive(Debug, Clone, Copy, PartialEq, Eq, Structural)]
pub enum CrateType {
    Kernel,
    Application,
    Userspace,
}

/// The crate type whose prefix character is `c`: `k`, `a` or `u`.
pub open spec fn crate_type_of_char(c: char) -> Option<CrateType> {
    if c == 'k' {
        Some(CrateType::Kernel)
    } else if c == 'a' {
        Some(CrateType::Application)
    } else if c == 'u' {
        Some(CrateType::Userspace)
    } else {
        None
    }
}

/// `s` holds `c` at index `h` and nowhere else.
pub open spec fn only_at(s: Seq<char>, c: char, h: int) -> bool {
    &&& 0 <= h < s.len()
    &&& s[h] == c
    &&& forall|i: int| 0 <= i < s.len() && i != h ==> s[i] != c
}

/// Whether `s` starts with the character `c`.
pub open spec fn starts_with_char(s: Seq<char>, c: char) -> bool {
    s.len() > 0 && s[0] == c
}

impl CrateType {
    /// The name of the default namespace of this crate type, whose directory
    /// holds the crate object files of that type without a namespace prefix.
    pub open spec fn spec_default_namespace_name(self) -> Seq<char> {
        match self {
            CrateType::Kernel => "_kernel"@,
            CrateType::Application => "_applications"@,
            CrateType::Userspace => "_userspace"@,
        }
    }

    /// Returns the name of the default namespace of this crate type.
    pub fn default_namespace_name(&self) -> (r: &'static str)
        ensures
            r@ == self.spec_default_namespace_name(),
    {
        match self {
            CrateType::Kernel => "_kernel",
            CrateType::Application => "_applications",
            CrateType::Userspace => "_userspace",
        }
    }

    /// The prefix character of this crate type's module names.
    pub open spec fn spec_first_char(self) -> char {
        match self {
            CrateType::Kernel => 'k',
            CrateType::Application => 'a',
            CrateType::Userspace => 'u',
        }
    }

    /// Returns the one-character prefix of this crate type: `"k"`, `"a"` or `"u"`.
    pub fn first_char(&self) -> (r: &'static str)
        ensures
            r@ == seq![self.spec_first_char()],
    {
        proof {
            reveal_strlit("k");
            reveal_strlit("a");
            reveal_strlit("u");
        }
        match self {
            CrateType::Kernel => "k",
            CrateType::Application => "a",
            CrateType::Userspace => "u",
        }
    }

    /// The crate type, namespace prefix and file name of a module name with
    /// a single `#` after a known crate type character, if it is one.
    pub open spec fn module_name_spec(s: Seq<char>) -> Option<(CrateType, Seq<char>, Seq<char>)> {
        if exists|h: int| only_at(s, '#', h) {
            let h = choose|h: int| only_at(s, '#', h);
            if h > 0 && crate_type_of_char(s[0]) is Some {
                Some((crate_type_of_char(s[0])->0, s.subrange(1, h), s.subrange(h + 1, s.len() as int)))
            } else {
                None
            }
        } else {
            None
        }
    }

    /// Splits a module name at its single `#` delimiter into the crate type
    /// (from the first character), the namespace prefix (the rest of the part
    /// before `#`) and the crate's file name (the part after `#`);
    /// e.g. `"ksse#my_crate.o"` gives `(Kernel, "sse", "my_crate.o")`.
    pub fn from_module_name<'a>(module_name: &'a str) -> (r: Result<
        (CrateType, &'a str, &'a str),
        &'static str,
    >)
        ensures
            (forall|i: int| 0 <= i < module_name@.len() ==> module_name@[i] != '#') ==> (r matches Err(e)
                && e@ == "couldn't parse crate name after prefix delimiter"@),
            (exists|i: int, j: int|
                0 <= i < j < module_name@.len() && module_name@[i] == '#' && module_name@[j] == '#') ==> (r matches Err(e)
                && e@ == "found more than one '#' delimiter in module name"@),
            forall|h: int|
                #![trigger only_at(module_name@, '#', h)]
                only_at(module_name@, '#', h) ==> if h > 0 && crate_type_of_char(module_name@[0]) is Some {
                    r matches Ok((t, prefix, name)) && t == crate_type_of_char(module_name@[0])->0
                        && prefix@ == module_name@.subrange(1, h) && name@ == module_name@.subrange(
                        h + 1,
                        module_name@.len() as int,
                    )
                } else {
                    r matches Err(e) && e@ == "module_name didn't start with a known CrateType prefix"@
                },
            r matches Ok((t, p, n)) ==> only_at(module_name@, '#', p@.len() + 1int),
    {
        let chars = chars_of(module_name);
        let n = chars.len();
        let mut first: Option<usize> = None;
        let mut i: usize = 0;
        while i < n
            invariant
                chars@ == module_name@,
                n == chars@.len(),
                i <= n,
                first is None ==> forall|j: int| 0 <= j < i ==> chars@[j] != '#',
                first matches Some(h) ==> h < i && chars@[h as int] == '#' && forall|j: int|
                    0 <= j < i && j != h ==> chars@[j] != '#',
            decreases n - i,
        {
            if chars[i] == '#' {
                if first.is_some() {
                    return Err("found more than one '#' delimiter in module name");
                }
                first = Some(i);
            }
            i = i + 1;
        }
        let h = match first {
            None => {
                return Err("couldn't parse crate name after prefix delimiter");
            },
            Some(h) => h,
        };
        assert(only_at(module_name@, '#', h as int));
        assert forall|h2: int| only_at(module_name@, '#', h2) implies h2 == h by {}
        if h == 0 {
            return Err("module_name didn't start with a known CrateType prefix");
        }
        let c = chars[0];
        let typ = if c == 'k' {
            CrateType::Kernel
        } else if c == 'a' {
            CrateType::Application
        } else if c == 'u' {
            CrateType::Userspace
        } else {
            return Err("module_name didn't start with a known CrateType prefix");
        };
        let prefix = substring(module_name, 1, h);
        let name = substring(module_name, h + 1, n);
        Ok((typ, prefix, name))
    }

    /// Whether the module name starts with the application prefix character `a`.
    pub fn is_application(module_name: &str) -> (r: bool)
        ensures
            r == starts_with_char(module_name@, 'a'),
    {
        let chars = chars_of(module_name);
        chars.len() > 0 && chars[0] == 'a'
    }

    /// Whether the module name starts with the kernel prefix character `k`.
    pub fn is_kernel(module_name: &str) -> (r: bool)
        ensures
            r == starts_with_char(module_name@, 'k'),
    {
        let chars = chars_of(module_name);
        chars.len() > 0 && chars[0] == 'k'
    }

    /// Whether the module name starts with the userspace prefix character `u`.
    pub fn is_userspace(module_name: &str) -> (r: bool)
        ensures
            r == starts_with_char(module_name@, 'u'),
    {
        let chars = chars_of(module_name);
        chars.len() > 0 && chars[0] == 'u'
    }
}

/// A module name made of a crate type's prefix character, a namespace
/// prefix, `#` and a file name, neither of which holds `#`, is read back as
/// that crate type, prefix and file name.
pub proof fn law_module_name_round_trip(t: CrateType, prefix: Seq<char>, name: Seq<char>)
    requires
        forall|i: int| 0 <= i < prefix.len() ==> prefix[i] != '#',
        forall|i: int| 0 <= i < name.len() ==> name[i] != '#',
    ensures
        ({
            let s = seq![t.spec_first_char()] + prefix + seq!['#'] + name;
            let h: int = prefix.len() + 1int;
            &&& only_at(s, '#', h)
            &&& crate_type_of_char(s[0]) == Some(t)
            &&& s.subrange(1, h) == prefix
            &&& s.subrange(h + 1, s.len() as int) == name
            &&& CrateType::module_name_spec(s) == Some((t, prefix, name))
        }),
{
    let s = seq![t.spec_first_char()] + prefix + seq!['#'] + name;
    let h: int = prefix.len() + 1int;
    assert forall|i: int| 0 <= i < s.len() && i != h implies s[i] != '#' by {
        if 1 <= i < h {
            assert(s[i] == prefix[i - 1]);
        } else if i > h {
            assert(s[i] == name[i - h - 1]);
        }
    }
    assert(only_at(s, '#', h));
    assert forall|h2: int| only_at(s, '#', h2) implies h2 == h by {}
    assert(s.subrange(1, h) =~= prefix);
    assert(s.subrange(h + 1, s.len() as int) =~= name);
}

} // verus!
