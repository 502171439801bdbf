//! Naming conventions of loaded sections and crates: trailing hashes,
//! symbol prefixes and the crate name that a symbol belongs to.

use crate::text::{chars_of, substring};
use vstd::prelude::*;

verus! {

/// Whether `s` holds the hash delimiter `::h` at index `i`.
pub open spec fn hash_delimiter_at(s: Seq<char>, i: int) -> bool {
    0 <= i && i + 3 <= s.len() && s[i] == ':' && s[i + 1] == ':' && s[i + 2] == 'h'
}

/// The section name without its trailing hash: everything up to and including
/// the last `::h`, or the whole name if it holds no `::h`.
pub open spec fn spec_section_name_without_hash(s: Seq<char>) -> Seq<char> {
    if exists|i: int| hash_delimiter_at(s, i) {
        let i = choose|i: int| hash_delimiter_at(s, i) && forall|j: int| j > i ==> !hash_delimiter_at(s, j);
        s.subrange(0, i + 3)
    } else {
        s
    }
}

/// The first index of `c` in `s`, or `s.len()` if `s` does not hold `c`.
pub open spec fn first_index_or_len(s: Seq<char>, c: char) -> int
    decreases s.len(),
{
    if s.len() == 0 {
        0
    } else if s[0] == c {
        0
    } else {
        1 + first_index_or_len(s.subrange(1, s.len() as int), c)
    }
}

/// Returns the substring of a section's name that excludes the trailing hash
/// but includes the hash delimiter `::h`; a name without `::h` is returned
/// unchanged. E.g. `"keyboard_new::init::h832430094f98e56b"` gives `"keyboard_new::init::h"`.
pub fn section_name_without_hash(sec_name: &str) -> (r: &str)
    ensures
        r@ == spec_section_name_without_hash(sec_name@),
{
    let chars = chars_of(sec_name);
    let n = chars.len();
    let mut i = n;
    while i >= 3
        invariant
            chars@ == sec_name@,
            n == chars@.len(),
            i <= n,
            forall|j: int| i - 3 < j <= n - 3 ==> !hash_delimiter_at(sec_name@, j),
        decreases i,
    {
        if chars[i - 3] == ':' && chars[i - 2] == ':' && chars[i - 1] == 'h' {
            let start = i - 3;
            assert(hash_delimiter_at(sec_name@, start as int));
            let ghost k = choose|k: int|
                hash_delimiter_at(sec_name@, k) && forall|j: int| j > k ==> !hash_delimiter_at(sec_name@, j);
            assert(forall|j: int| j > start ==> !hash_delimiter_at(sec_name@, j));
            assert(k == start) by {
                if k < start {
                } else if k > start {
                }
            }
            return substring(sec_name, 0, i);
        }
        i = i - 1;
    }
    assert(forall|j: int| !hash_delimiter_at(sec_name@, j));
    sec_name
}

/// Returns the substring of a crate's name before its hash delimiter `-`, or
/// the whole name if it holds no `-`. E.g. `"device_manager-e3769b63863a4030"` gives `"device_manager"`.
pub fn crate_name_without_hash(crate_name: &str) -> (r: &str)
    ensures
        r@ == crate_name@.subrange(0, first_index_or_len(crate_name@, '-')),
{
    let chars = chars_of(crate_name);
    let n = chars.len();
    let mut i: usize = 0;
    while i < n
        invariant
            chars@ == crate_name@,
            n == chars@.len(),
            i <= n,
            forall|j: int| 0 <= j < i ==> chars@[j] != '-',
        decreases n - i,
    {
        if chars[i] == '-' {
            proof {
                lemma_first_index(crate_name@, '-', i as int);
            }
            return substring(crate_name, 0, i);
        }
        i = i + 1;
    }
    proof {
        lemma_first_index(crate_name@, '-', n as int);
    }
    crate_name
}

/// `first_index_or_len` is the first index holding `c`, or the length.
pub proof fn lemma_first_index(s: Seq<char>, c: char, i: int)
    requires
        0 <= i <= s.len(),
        forall|j: int| 0 <= j < i ==> s[j] != c,
        i == s.len() || s[i] == c,
    ensures
        first_index_or_len(s, c) == i,
    decreases s.len(),
{
    if s.len() > 0 && i > 0 {
        let t = s.subrange(1, s.len() as int);
        assert forall|j: int| 0 <= j < i - 1 implies t[j] != c by {
            assert(t[j] == s[j + 1]);
        }
        if i < s.len() {
            assert(t[i - 1] == s[i]);
        }
        lemma_first_index(t, c, i - 1);
    }
}

/// Returns this crate's name without its hash, with a trailing `::`, for use
/// as a symbol prefix. E.g. `"device_manager-e3769b63863a4030"` gives `"device_manager::"`.
pub fn crate_name_as_prefix(crate_name: &str) -> (r: String)
    ensures
        r@ == crate_name@.subrange(0, first_index_or_len(crate_name@, '-')) + seq![':', ':'],
{
    let without_hash = crate_name_without_hash(crate_name);
    let mut r = String::from_str(without_hash);
    proof {
        reveal_strlit("::");
    }
    r.append("::");
    r
}

/// Whether `char::is_alphanumeric` holds of `c`: Unicode's Alphabetic or Numeric property.
pub uninterp spec fn unicode_alphanumeric(c: char) -> bool;

/// Calls `char::is_alphanumeric`, whose result is Unicode's Alphabetic or
/// Numeric property of `c`; among ASCII characters those are exactly the
/// letters and digits.
#[verifier::external_body]
fn char_is_alphanumeric(c: char) -> (r: bool)
    ensures
        r == unicode_alphanumeric(c),
        (c as u32) < 128 ==> (r <==> ('a' <= c <= 'z' || 'A' <= c <= 'Z' || '0' <= c <= '9')),
{
    c.is_alphanumeric()
}

/// The characters that may appear in a crate name: alphanumerics, `_` and `-`.
pub open spec fn spec_is_valid_crate_name_char(c: char) -> bool {
    unicode_alphanumeric(c) || c == '_' || c == '-'
}

/// Whether `c` may appear in a crate name: alphanumeric, `_` or `-`.
pub fn is_valid_crate_name_char(c: char) -> (r: bool)
    ensures
        r == spec_is_valid_crate_name_char(c),
        (c as u32) < 128 ==> (r <==> ('a' <= c <= 'z' || 'A' <= c <= 'Z' || '0' <= c <= '9' || c == '_' || c
            == '-')),
{
    char_is_alphanumeric(c) || c == '_' || c == '-'
}

/// Whether `s` holds the path delimiter `::` at index `i`.
pub open spec fn path_delimiter_at(s: Seq<char>, i: int) -> bool {
    0 <= i && i + 2 <= s.len() && s[i] == ':' && s[i + 1] == ':'
}

/// The end of the first `::`-separated piece of `s`: the index of the first `::`, or the length.
pub open spec fn first_piece_end(s: Seq<char>) -> int {
    if exists|i: int| path_delimiter_at(s, i) {
        choose|i: int| path_delimiter_at(s, i) && forall|j: int| 0 <= j < i ==> !path_delimiter_at(s, j)
    } else {
        s.len() as int
    }
}

/// The start of the last run of crate-name characters of `head`: one past its
/// last character that cannot appear in a crate name, or zero.
pub open spec fn last_name_run_start(head: Seq<char>) -> int {
    if exists|i: int| 0 <= i < head.len() && !spec_is_valid_crate_name_char(head[i]) {
        1 + choose|i: int|
            0 <= i < head.len() && !spec_is_valid_crate_name_char(head[i]) && forall|j: int|
                i < j < head.len() ==> spec_is_valid_crate_name_char(head[j])
    } else {
        0
    }
}

/// The name of the crate that a demangled symbol belongs to: the part before
/// the first `::`, and of that the part after its last character that cannot
/// appear in a crate name. E.g. `"<my_crate::Foo as Bar>::baz"` gives `"my_crate"`.
pub open spec fn spec_crate_name_from_symbol(s: Seq<char>) -> Seq<char> {
    let head = s.subrange(0, first_piece_end(s));
    head.subrange(last_name_run_start(head), head.len() as int)
}

/// Returns the name of the crate that a fully-qualified demangled symbol
/// belongs to: the last run of crate-name characters before the first `::`.
pub fn crate_name_from_symbol(demangled_full_symbol: &str) -> (r: &str)
    ensures
        r@ == spec_crate_name_from_symbol(demangled_full_symbol@),
{
    let ghost s = demangled_full_symbol@;
    let chars = chars_of(demangled_full_symbol);
    let n = chars.len();
    // the end of the first `::`-separated piece
    let mut p: usize = 0;
    let mut found = false;
    while n > 0 && p < n - 1
        invariant
            chars@ == s,
            n == s.len(),
            p <= n,
            forall|j: int| 0 <= j < p ==> !path_delimiter_at(s, j),
        ensures
            p <= n,
            forall|j: int| 0 <= j < p ==> !path_delimiter_at(s, j),
            n > 0 && p < n - 1 ==> path_delimiter_at(s, p as int),
        decreases n - p,
    {
        if chars[p] == ':' && chars[p + 1] == ':' {
            break;
        }
        p = p + 1;
    }
    let end = if n > 0 && p < n - 1 { p } else { n };
    proof {
        if n > 0 && p < n - 1 {
            assert(path_delimiter_at(s, p as int));
            assert(exists|i: int| path_delimiter_at(s, i));
            let i = choose|i: int| path_delimiter_at(s, i) && forall|j: int| 0 <= j < i ==> !path_delimiter_at(s, j);
            assert(i == p) by {
                if i < p {
                } else if i > p {
                }
            }
        } else {
            assert forall|i: int| !path_delimiter_at(s, i) by {
                if path_delimiter_at(s, i) && i >= p {
                }
            }
            assert(!exists|i: int| path_delimiter_at(s, i));
        }
    }
    // the start of the last run of crate-name characters in that piece
    let mut q = end;
    while q > 0
        invariant
            chars@ == s,
            n == s.len(),
            q <= end <= n,
            forall|j: int| q <= j < end ==> spec_is_valid_crate_name_char(s[j]),
        ensures
            q <= end,
            forall|j: int| q <= j < end ==> spec_is_valid_crate_name_char(s[j]),
            q > 0 ==> !spec_is_valid_crate_name_char(s[q - 1]),
        decreases q,
    {
        if !is_valid_crate_name_char(chars[q - 1]) {
            break;
        }
        q = q - 1;
    }
    proof {
        let head = s.subrange(0, end as int);
        if q > 0 {
            let w = (q - 1) as int;
            assert(!spec_is_valid_crate_name_char(head[w]));
            assert(exists|i: int| 0 <= i < head.len() && !spec_is_valid_crate_name_char(head[i]));
            let i = choose|i: int|
                0 <= i < head.len() && !spec_is_valid_crate_name_char(head[i]) && forall|j: int|
                    i < j < head.len() ==> spec_is_valid_crate_name_char(head[j]);
            assert(i == w) by {
                if i < w {
                    assert(spec_is_valid_crate_name_char(head[w]));
                } else if i > w {
                    assert(!spec_is_valid_crate_name_char(head[i]));
                }
            }
        } else {
            assert forall|i: int| 0 <= i < head.len() implies spec_is_valid_crate_name_char(head[i]) by {}
            assert(!exists|i: int| 0 <= i < head.len() && !spec_is_valid_crate_name_char(head[i]));
        }
        assert(first_piece_end(s) == end);
        assert(last_name_run_start(head) == q);
        assert(s.subrange(0, end as int).subrange(q as int, end as int) =~= s.subrange(q as int, end as int));
    }
    substring(demangled_full_symbol, q, end)
}

} // verus!
