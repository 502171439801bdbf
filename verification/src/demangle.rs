//! Demangling of symbol names into the fully-qualified name and its hash.
//! Example: `_ZN7console4init17h71243d883671cb51E` demangles to
//! `console::init`, with the hash `h71243d883671cb51`.

use vstd::prelude::*;
use vstd::utf8::{encode_utf8, is_char_boundary};

verus! {

/// A demangled symbol: the fully-qualified name without the hash, and the
/// hash where the demangled form has one.
#[derive(Debug)]
pub struct DemangledSymbol {
    pub no_hash: String,
    pub hash: Option<String>,
}

/// What `rustc_demangle::demangle` makes of a symbol, written out in the
/// alternate form (without the hash) and in the plain form (with the hash).
pub uninterp spec fn demangled(mangled: Seq<char>) -> (Seq<char>, Seq<char>);

/// Demangles `s` with `rustc_demangle::demangle` and formats the result with
/// `{:#}` (the name without its hash) and with `{}` (the name with its hash).
/// The contract names the two strings and says nothing more of them: how a
/// symbol demangles is the outside crate's grammar.
#[verifier::external_body]
pub(crate) fn demangle_forms(s: &str) -> (r: (String, String))
    ensures
        (r.0@, r.1@) == demangled(s@),
{
    let demangled = rustc_demangle::demangle(s);
    (format!("{:#}", demangled), format!("{}", demangled))
}

/// `needle` occurs in `hay` at byte `i`.
pub open spec fn occurs_at(hay: Seq<u8>, needle: Seq<u8>, i: int) -> bool {
    0 <= i && i + needle.len() <= hay.len() && hay.subrange(i, i + needle.len()) == needle
}

/// The first byte at which `needle` occurs in `hay`, if it occurs at all.
pub open spec fn first_occurrence(hay: Seq<u8>, needle: Seq<u8>) -> Option<int> {
    if exists|i: int| occurs_at(hay, needle, i) {
        Some(
            choose|i: int|
                occurs_at(hay, needle, i) && forall|j: int| 0 <= j < i ==> !occurs_at(hay, needle, j),
        )
    } else {
        None
    }
}

/// Returns the first byte at which `needle` occurs in `hay`.
fn find_bytes(hay: &[u8], needle: &[u8]) -> (r: Option<usize>)
    ensures
        match r {
            Some(i) => occurs_at(hay@, needle@, i as int) && forall|j: int|
                0 <= j < i ==> !occurs_at(hay@, needle@, j),
            None => forall|j: int| !occurs_at(hay@, needle@, j),
        },
{
    let n = hay.len();
    let m = needle.len();
    if m > n {
        return None;
    }
    let mut i: usize = 0;
    while i <= n - m
        invariant
            n == hay@.len(),
            m == needle@.len(),
            m <= n,
            i <= n - m + 1,
            forall|j: int| 0 <= j < i ==> !occurs_at(hay@, needle@, j),
        decreases n - m + 1 - i,
    {
        let mut k: usize = 0;
        let mut same = true;
        while k < m
            invariant
                n == hay@.len(),
                m == needle@.len(),
                i + m <= n,
                k <= m,
                same == forall|t: int| 0 <= t < k ==> hay@[i + t] == needle@[t],
            decreases m - k,
        {
            if hay[i + k] != needle[k] {
                same = false;
            }
            k = k + 1;
        }
        if same {
            assert(hay@.subrange(i as int, i + m) =~= needle@);
            return Some(i);
        }
        assert(!occurs_at(hay@, needle@, i as int)) by {
            if occurs_at(hay@, needle@, i as int) {
                let t = choose|t: int| 0 <= t < m && hay@[i + t] != needle@[t];
                assert(hay@.subrange(i as int, i + m)[t] == needle@[t]);
            }
        }
        i = i + 1;
    }
    None
}

/// The bytes of the hash in `with_hash`: what follows the first occurrence
/// of `without_hash` and the two bytes of the `::` separator after it, where
/// that position is a character boundary.
pub open spec fn hash_bytes(with_hash: Seq<u8>, without_hash: Seq<u8>) -> Option<Seq<u8>> {
    match first_occurrence(with_hash, without_hash) {
        None => None,
        Some(i) => {
            let start = i + 2 + without_hash.len();
            if is_char_boundary(with_hash, start) {
                Some(with_hash.subrange(start, with_hash.len() as int))
            } else {
                None
            }
        },
    }
}

/// Builds the demangled symbol from the name without its hash and the name
/// with it: the hash is what follows `without_hash` and a `::` in `with_hash`.
pub fn demangled_symbol_from(without_hash: String, with_hash: String) -> (r: DemangledSymbol)
    ensures
        r.no_hash@ == without_hash@,
        match hash_bytes(encode_utf8(with_hash@), encode_utf8(without_hash@)) {
            None => r.hash is None,
            Some(b) => r.hash matches Some(h) && encode_utf8(h@) == b,
        },
{
    let with_str = with_hash.as_str();
    let wb = with_str.as_bytes();
    let nb = without_hash.as_str().as_bytes();
    assert(wb@ == encode_utf8(with_hash@));
    assert(nb@ == encode_utf8(without_hash@));
    let hash = match find_bytes(wb, nb) {
        None => None,
        Some(index) => {
            proof {
                let w = encode_utf8(with_hash@);
                let nn = encode_utf8(without_hash@);
                assert(occurs_at(w, nn, index as int));
                assert(forall|j: int| 0 <= j < index ==> !occurs_at(w, nn, j));
                let c = choose|i: int|
                    occurs_at(w, nn, i) && forall|j: int| 0 <= j < i ==> !occurs_at(w, nn, j);
                assert(c == index as int) by {
                    if c < index {
                    } else if c > index {
                        assert(!occurs_at(w, nn, index as int));
                    }
                }
                assert(first_occurrence(w, nn) == Some(index as int));
                vstd::utf8::encode_utf8_valid_utf8(with_hash@);
            }
            assert(occurs_at(wb@, nb@, index as int));
            assert(index + nb@.len() <= wb@.len());
            assert(wb@.len() == wb.len());
            let after = index + nb.len();
            if wb.len() - after >= 2 {
                let hash_start = after + 2;
                if with_str.is_char_boundary(hash_start) {
                    let (_, tail) = with_str.split_at(hash_start);
                    Some(tail.to_owned())
                } else {
                    None
                }
            } else {
                None
            }
        },
    };
    DemangledSymbol { no_hash: without_hash, hash }
}

/// Demangles a symbol name into the name without its hash and the hash.
pub fn demangle_symbol(s: &str) -> (r: DemangledSymbol)
    ensures
        r.no_hash@ == demangled(s@).0,
        match hash_bytes(encode_utf8(demangled(s@).1), encode_utf8(demangled(s@).0)) {
            None => r.hash is None,
            Some(b) => r.hash matches Some(h) && encode_utf8(h@) == b,
        },
{
    let (without_hash, with_hash) = demangle_forms(s);
    demangled_symbol_from(without_hash, with_hash)
}

} // verus!
