//! Decides `elf_readable` on a file's bytes, so that a caller can test a
//! file before handing it to the parts of the loader that read it with
//! `xmas_elf`.

use vstd::prelude::*;
use vstd::slice::slice_subrange;
use crate::elf::{
    le, c_str_ok, c_str_bytes, header_parses, is_elf64, field, sh_entsize_field,
    sh_count_field, sh_start, sh_read_safe,
    sh_parses, sec_name_field, sec_type_field, sec_offset_field, sec_size_field, known_type, name_read_safe,
    data_read_safe, ph_read_safe, SHN_LORESERVE, strtab_name, named_strtab,
    first_strtab, string_read_safe, sym_name_field, symbol_names_safe, elf_readable, program_headers_readable,
};
use crate::nano_core::str_from_utf8;
use vstd::utf8::valid_utf8;

verus! {

/// The error for a file with a part that `xmas_elf` cannot read safely.
pub const UNREADABLE_ELF_FILE: &'static str = "the ELF file has a part that cannot be read safely";

/// `256` to the power `n`.
pub open spec fn pow256(n: nat) -> int
    decreases n,
{
    if n == 0 { 1 } else { 256 * pow256((n - 1) as nat) }
}

/// A little-endian value of `n` bytes is below `256` to the power `n`.
proof fn lemma_le_bound(s: Seq<u8>, i: int, n: nat)
    ensures
        0 <= le(s, i, n) < pow256(n),
    decreases n,
{
    if n > 0 {
        lemma_le_bound(s, i + 1, (n - 1) as nat);
    }
}

/// `256` to a power of at most 8 is at most `2^64`.
proof fn lemma_pow256_small(m: nat)
    requires
        m <= 8,
    ensures
        pow256(m) <= 0x1_0000_0000_0000_0000,
{
    assert(pow256(0) == 1);
    assert(pow256(1) == 0x100);
    assert(pow256(2) == 0x1_0000);
    assert(pow256(3) == 0x100_0000);
    assert(pow256(4) == 0x1_0000_0000);
    assert(pow256(5) == 0x100_0000_0000);
    assert(pow256(6) == 0x1_0000_0000_0000);
    assert(pow256(7) == 0x100_0000_0000_0000);
    assert(pow256(8) == 0x1_0000_0000_0000_0000);
    if m == 0 {
    } else if m == 1 {
    } else if m == 2 {
    } else if m == 3 {
    } else if m == 4 {
    } else if m == 5 {
    } else if m == 6 {
    } else if m == 7 {
    }
}

/// The byte at `p`, or 0 past the end.
fn byte_at(s: &[u8], p: u128) -> (r: u8)
    ensures
        r == (if 0 <= p < s@.len() { s@[p as int] } else { 0u8 }),
{
    if p < s.len() as u128 {
        s[p as usize]
    } else {
        0
    }
}

/// The little-endian value of the `n` bytes of `s` from `pos` on.
fn read_le(s: &[u8], pos: u128, n: u128) -> (r: u64)
    requires
        n <= 8,
        pos <= 0x1_0000_0000_0000_0000_0000,
    ensures
        r == le(s@, pos as int, n as nat),
{
    let mut acc: u128 = 0;
    let mut k: u128 = n;
    proof {
        lemma_pow256_small(n as nat);
    }
    while k > 0
        invariant
            n <= 8,
            pos <= 0x1_0000_0000_0000_0000_0000,
            k <= n,
            acc == le(s@, pos + k, (n - k) as nat),
            acc < pow256((n - k) as nat),
            pow256(n as nat) <= 0x1_0000_0000_0000_0000,
        decreases k,
    {
        let b = byte_at(s, pos + k - 1);
        proof {
            lemma_pow256_small((n - k) as nat);
            lemma_pow256_small((n - k + 1) as nat);
            assert(le(s@, pos + k - 1, (n - k + 1) as nat) == b + 256 * le(s@, pos + k, (n - k) as nat));
        }
        acc = b as u128 + 256 * acc;
        k = k - 1;
    }
    proof {
        lemma_le_bound(s@, pos as int, n as nat);
    }
    acc as u64
}

/// The first zero byte of `s` at or after `from` and before `to`.
fn first_zero(s: &[u8], from: usize, to: usize) -> (r: Option<usize>)
    requires
        from <= to <= s@.len(),
    ensures
        match r {
            Some(k) => from <= k < to && s@[k as int] == 0 && forall|j: int| from <= j < k ==> s@[j] != 0,
            None => forall|j: int| from <= j < to ==> s@[j] != 0,
        },
{
    let mut k = from;
    while k < to
        invariant
            from <= k <= to <= s@.len(),
            forall|j: int| from <= j < k ==> s@[j] != 0,
        decreases to - k,
    {
        if s[k] == 0 {
            return Some(k);
        }
        k = k + 1;
    }
    None
}

/// Whether the bytes of `s` from `from` to `to` hold a zero byte with
/// UTF-8 before the first one; and, where they do, the bytes before it.
fn c_str_in(s: &[u8], from: usize, to: usize) -> (r: Option<usize>)
    requires
        from <= to <= s@.len(),
    ensures
        r is Some <==> c_str_ok(s@.subrange(from as int, to as int)),
        r matches Some(k) ==> from <= k <= to && c_str_bytes(s@.subrange(from as int, to as int)) == s@.subrange(
            from as int,
            k as int,
        ),
{
    let ghost t = s@.subrange(from as int, to as int);
    match first_zero(s, from, to) {
        None => {
            assert(!c_str_ok(t)) by {
                if c_str_ok(t) {
                    let k = choose|k: int|
                        0 <= k < t.len() && t[k] == 0 && (forall|j: int| 0 <= j < k ==> t[j] != 0) && valid_utf8(
                            #[trigger] t.subrange(0, k),
                        );
                    assert(s@[from + k] == 0);
                }
            }
            None
        },
        Some(k) => {
            let ghost z = (k - from) as int;
            assert(t.subrange(0, z) == s@.subrange(from as int, k as int));
            assert(0 <= z < t.len() && t[z] == 0 && (forall|j: int| 0 <= j < z ==> t[j] != 0));
            assert forall|k2: int|
                0 <= k2 < t.len() && t[k2] == 0 && (forall|j: int| 0 <= j < k2 ==> t[j] != 0) implies k2
                == z by {
                if k2 < z {
                    assert(s@[from + k2] != 0);
                } else if k2 > z {
                    assert(t[z] != 0);
                }
            }
            assert(c_str_bytes(t) == s@.subrange(from as int, k as int));
            let bytes = slice_subrange(s, from, k);
            if str_from_utf8(bytes).is_some() {
                Some(k)
            } else {
                assert(!c_str_ok(t)) by {
                    if c_str_ok(t) {
                        let k2 = choose|k2: int|
                            0 <= k2 < t.len() && t[k2] == 0 && (forall|j: int| 0 <= j < k2 ==> t[j] != 0)
                                && valid_utf8(#[trigger] t.subrange(0, k2));
                    }
                }
                None
            }
        },
    }
}

/// Whether `xmas_elf` parses the ELF header of `s`.
fn header_parses_at(s: &[u8]) -> (r: bool)
    ensures
        r == header_parses(s@),
{
    if s.len() < 16 {
        return false;
    }
    s[0] == 0x7f && s[1] == 0x45 && s[2] == 0x4c && s[3] == 0x46 && (s[4] == 1 || s[4] == 2) && s.len() >= (
    if s[4] == 2 {
        64
    } else {
        52
    })
}

/// A field of `n64` or `n32` bytes at `base + off64` (64-bit files) or
/// `base + off32` (32-bit files).
fn read_field(s: &[u8], base: u128, off64: u128, n64: u128, off32: u128, n32: u128) -> (r: u64)
    requires
        header_parses(s@),
        base <= 0x1_0000_0000_0000_0000_0000 - 64,
        off64 <= 64,
        off32 <= 64,
        n64 <= 8,
        n32 <= 8,
    ensures
        r == field(s@, base as int, off64 as int, n64 as nat, off32 as int, n32 as nat),
        r < pow256(if is_elf64(s@) { n64 as nat } else { n32 as nat }),
{
    if s[4] == 2 {
        proof {
            lemma_le_bound(s@, base + off64, n64 as nat);
        }
        read_le(s, base + off64, n64)
    } else {
        proof {
            lemma_le_bound(s@, base + off32, n32 as nat);
        }
        read_le(s, base + off32, n32)
    }
}

/// Where section header `i` starts.
fn sh_start_at(s: &[u8], i: u128) -> (r: u128)
    requires
        header_parses(s@),
        i < 0x1_0000,
    ensures
        r == sh_start(s@, i as int),
        r <= 0x1_0000_0000_0000_0000 + 0x1_0000_0000,
{
    let off = read_field(s, 0, 40, 8, 32, 4);
    let es = read_field(s, 0, 58, 2, 46, 2);
    proof {
        lemma_pow256_small(8);
        lemma_pow256_small(4);
        assert(pow256(2) == 0x1_0000) by { reveal_with_fuel(pow256, 3); }
        assert(i * es <= 0x1_0000 * 0x1_0000) by (nonlinear_arith)
            requires
                i < 0x1_0000,
                es < 0x1_0000,
        ;
    }
    off as u128 + i * (es as u128)
}

/// The entry size of the section header table.
fn sh_entsize_at(s: &[u8]) -> (r: u128)
    requires
        header_parses(s@),
    ensures
        r == sh_entsize_field(s@),
        r < 0x1_0000,
{
    proof {
        assert(pow256(2) == 0x1_0000) by { reveal_with_fuel(pow256, 3); }
    }
    read_field(s, 0, 58, 2, 46, 2) as u128
}

/// Whether reading section header `i` is safe.
fn sh_read_safe_at(s: &[u8], i: u128) -> (r: bool)
    requires
        header_parses(s@),
        i < 0x1_0000,
    ensures
        r == sh_read_safe(s@, i as int),
{
    if i >= SHN_LORESERVE as u128 {
        return false;
    }
    let start = sh_start_at(s, i);
    let es = sh_entsize_at(s);
    if start + es > usize::MAX as u128 {
        return false;
    }
    if start + es <= s.len() as u128 {
        let need: u128 = if s[4] == 2 { 64 } else { 40 };
        let w: u128 = if s[4] == 2 { 8 } else { 4 };
        es >= need && start % w == 0
    } else {
        true
    }
}

/// Whether section header `i` is read.
fn sh_parses_at(s: &[u8], i: u128) -> (r: bool)
    requires
        header_parses(s@),
        i < 0x1_0000,
    ensures
        r == sh_parses(s@, i as int),
{
    sh_read_safe_at(s, i) && sh_start_at(s, i) + sh_entsize_at(s) <= s.len() as u128
}

/// The type, name index, file offset and size fields of section header `i`.
fn section_fields_at(s: &[u8], i: u128) -> (r: (u128, u128, u128, u128))
    requires
        header_parses(s@),
        i < 0x1_0000,
    ensures
        r.0 == sec_type_field(s@, i as int),
        r.1 == sec_name_field(s@, i as int),
        r.2 == sec_offset_field(s@, i as int),
        r.3 == sec_size_field(s@, i as int),
        r.0 < 0x1_0000_0000,
        r.1 < 0x1_0000_0000,
        r.2 < 0x1_0000_0000_0000_0000,
        r.3 < 0x1_0000_0000_0000_0000,
{
    let start = sh_start_at(s, i);
    proof {
        lemma_pow256_small(8);
        lemma_pow256_small(4);
        assert(pow256(4) == 0x1_0000_0000) by { reveal_with_fuel(pow256, 5); }
        lemma_le_bound(s@, start + 4, 4);
        lemma_le_bound(s@, start as int, 4);
    }
    let t = read_le(s, start + 4, 4) as u128;
    let name = read_le(s, start, 4) as u128;
    let off = read_field(s, start, 24, 8, 16, 4) as u128;
    let size = read_field(s, start, 32, 8, 20, 4) as u128;
    (t, name, off, size)
}

/// Whether `xmas_elf` knows the section type `t`.
fn known_type_at(t: u128) -> (r: bool)
    requires
        t < 0x1_0000_0000,
    ensures
        r == known_type(t as int),
{
    t <= 11 || (14 <= t && t <= 18) || 0x6000_0000 <= t
}

/// Whether reading the name of section `i` is safe.
fn name_read_safe_at(s: &[u8], i: u128) -> (r: bool)
    requires
        header_parses(s@),
        i < 0x1_0000,
    ensures
        r == name_read_safe(s@, i as int),
{
    let (t, name, _, _) = section_fields_at(s, i);
    if !known_type_at(t) || t == 0 {
        return true;
    }
    let n = read_field(s, 0, 62, 2, 50, 2) as u128;
    proof {
        assert(pow256(2) == 0x1_0000) by { reveal_with_fuel(pow256, 3); }
    }
    if !sh_read_safe_at(s, n) {
        return false;
    }
    let (_, _, off, _) = section_fields_at(s, n);
    if sh_parses_at(s, n) && off <= s.len() as u128 {
        if off + name > s.len() as u128 {
            return false;
        }
        c_str_in(s, (off + name) as usize, s.len()).is_some()
    } else {
        true
    }
}

/// Whether the data of section `i` is an array of `elem`-byte entries
/// aligned to `align` in the file.
fn data_array_at(s: &[u8], off: u128, size: u128, elem: u128, align: u128) -> (r: bool)
    requires
        elem > 0,
        align > 0,
        off < 0x1_0000_0000_0000_0000,
        size < 0x1_0000_0000_0000_0000,
    ensures
        r == (off + size <= s@.len() && size % elem == 0 && off % align == 0),
{
    off + size <= s.len() as u128 && size % elem == 0 && off % align == 0
}

/// Whether reading the data of section `i` is safe.
fn data_read_safe_at(s: &[u8], i: u128) -> (r: bool)
    requires
        header_parses(s@),
        i < 0x1_0000,
    ensures
        r == data_read_safe(s@, i as int),
{
    let (t, _, off, size) = section_fields_at(s, i);
    let e64 = s[4] == 2;
    let w: u128 = if e64 { 8 } else { 4 };
    let in_file = off + size <= s.len() as u128;
    if !known_type_at(t) || t == 0 || t == 8 {
        true
    } else if t == 2 || t == 11 {
        data_array_at(s, off, size, if e64 { 24 } else { 16 }, w)
    } else if t == 4 {
        data_array_at(s, off, size, if e64 { 24 } else { 12 }, w)
    } else if t == 9 || t == 6 {
        data_array_at(s, off, size, if e64 { 16 } else { 8 }, w)
    } else if 14 <= t && t <= 16 {
        data_array_at(s, off, size, w, w)
    } else if t == 18 {
        data_array_at(s, off, size, 4, 4)
    } else if t == 17 {
        in_file && size >= 4 && (size - 4) % 4 == 0 && (off + 4) % 4 == 0
    } else if t == 7 {
        in_file && (!e64 || (size >= 12 && off % 4 == 0))
    } else if t == 5 {
        in_file && size >= 12 && off % 4 == 0
    } else {
        in_file
    }
}

/// Whether reading program header `i` is safe.
fn ph_read_safe_at(s: &[u8], i: u128) -> (r: bool)
    requires
        header_parses(s@),
        i < 0x1_0000,
    ensures
        r == ph_read_safe(s@, i as int),
{
    let off = read_field(s, 0, 32, 8, 28, 4) as u128;
    let es = read_field(s, 0, 54, 2, 42, 2) as u128;
    let count = read_field(s, 0, 56, 2, 44, 2) as u128;
    proof {
        lemma_pow256_small(8);
        lemma_pow256_small(4);
        assert(pow256(2) == 0x1_0000) by { reveal_with_fuel(pow256, 3); }
        assert(i * es <= 0x1_0000 * 0x1_0000) by (nonlinear_arith)
            requires
                i < 0x1_0000,
                es < 0x1_0000,
        ;
    }
    let start = off + i * es;
    if i < count && off > 0 && es > 0 {
        let need: u128 = if s[4] == 2 { 56 } else { 32 };
        let w: u128 = if s[4] == 2 { 8 } else { 4 };
        start + es <= s.len() as u128 && es >= need && start % w == 0
    } else {
        true
    }
}

/// Whether every section header before the reserved indices is safe to
/// read, every one that the file holds has a readable name and data, and
/// the iteration over the sections ends before the reserved indices.
fn sections_safe(s: &[u8]) -> (r: bool)
    requires
        header_parses(s@),
    ensures
        r == ({
            &&& forall|i: int| 0 <= i < SHN_LORESERVE ==> #[trigger] sh_read_safe(s@, i)
            &&& forall|i: int| #[trigger] sh_parses(s@, i) ==> name_read_safe(s@, i) && data_read_safe(s@, i)
            &&& (forall|i: int| 0 <= i < SHN_LORESERVE ==> sh_parses(s@, i)) ==> sh_count_field(s@)
                <= SHN_LORESERVE
        }),
{
    let mut i: u128 = 0;
    let mut all_parse = true;
    while i < SHN_LORESERVE as u128
        invariant
            header_parses(s@),
            i <= SHN_LORESERVE,
            forall|j: int| 0 <= j < i ==> #[trigger] sh_read_safe(s@, j),
            forall|j: int| 0 <= j < i ==> #[trigger] sh_parses(s@, j) ==> name_read_safe(s@, j) && data_read_safe(
                s@,
                j,
            ),
            all_parse == (forall|j: int| 0 <= j < i ==> #[trigger] sh_parses(s@, j)),
        decreases SHN_LORESERVE - i,
    {
        if !sh_read_safe_at(s, i) {
            return false;
        }
        let p = sh_parses_at(s, i);
        if p && !(name_read_safe_at(s, i) && data_read_safe_at(s, i)) {
            assert(sh_parses(s@, i as int));
            return false;
        }
        proof {
            if !p {
                assert(!sh_parses(s@, i as int));
            }
        }
        all_parse = all_parse && p;
        i = i + 1;
    }
    assert forall|j: int| #[trigger] sh_parses(s@, j) implies name_read_safe(s@, j) && data_read_safe(s@, j) by {
        assert(0 <= j < SHN_LORESERVE);
    }
    let count = read_field(s, 0, 60, 2, 48, 2);
    if all_parse && count > SHN_LORESERVE as u64 {
        return false;
    }
    true
}

/// Whether every program header is safe to read.
fn program_headers_safe(s: &[u8]) -> (r: bool)
    requires
        header_parses(s@),
    ensures
        r == (forall|i: int| 0 <= i < 0x1_0000 ==> #[trigger] ph_read_safe(s@, i)),
{
    let mut i: u128 = 0;
    while i < 0x1_0000
        invariant
            header_parses(s@),
            i <= 0x1_0000,
            forall|j: int| 0 <= j < i ==> #[trigger] ph_read_safe(s@, j),
        decreases 0x1_0000 - i,
    {
        if !ph_read_safe_at(s, i) {
            return false;
        }
        i = i + 1;
    }
    true
}

/// The bytes of `.strtab`.
fn strtab_bytes() -> (r: Vec<u8>)
    ensures
        r@ == strtab_name(),
{
    let r = vec![0x2eu8, 0x73u8, 0x74u8, 0x72u8, 0x74u8, 0x61u8, 0x62u8];
    assert(r@ == strtab_name());
    r
}

/// Whether the bytes of `s` from `from` to `to` are those of `t`.
fn bytes_equal(s: &[u8], from: usize, to: usize, t: &Vec<u8>) -> (r: bool)
    requires
        from <= to <= s@.len(),
    ensures
        r == (s@.subrange(from as int, to as int) == t@),
{
    if to - from != t.len() {
        return false;
    }
    let mut k: usize = 0;
    while k < t.len()
        invariant
            from <= to <= s@.len(),
            to - from == t@.len(),
            k <= t@.len(),
            forall|j: int| 0 <= j < k ==> s@[from + j] == t@[j],
        decreases t@.len() - k,
    {
        if s[from + k] != t[k] {
            assert(s@.subrange(from as int, to as int)[k as int] != t@[k as int]);
            return false;
        }
        k = k + 1;
    }
    assert(s@.subrange(from as int, to as int) =~= t@);
    true
}

/// Whether section `i` is named `.strtab`, where every section that the
/// file holds has a readable name.
fn named_strtab_at(s: &[u8], i: u128) -> (r: bool)
    requires
        header_parses(s@),
        i < 0x1_0000,
        sh_parses(s@, i as int),
        name_read_safe(s@, i as int),
    ensures
        r == named_strtab(s@, i as int),
{
    let (t, name, _, _) = section_fields_at(s, i);
    if !known_type_at(t) || t == 0 {
        return false;
    }
    let n = read_field(s, 0, 62, 2, 50, 2) as u128;
    proof {
        assert(pow256(2) == 0x1_0000) by { reveal_with_fuel(pow256, 3); }
    }
    let (_, _, off, _) = section_fields_at(s, n);
    if !(sh_parses_at(s, n) && off <= s.len() as u128) {
        return false;
    }
    let from = (off + name) as usize;
    match c_str_in(s, from, s.len()) {
        Some(k) => bytes_equal(s, from, k, &strtab_bytes()),
        None => false,
    }
}

/// The first section named `.strtab`, as the iteration over the sections
/// finds it.
fn strtab_at(s: &[u8]) -> (r: Option<u128>)
    requires
        header_parses(s@),
        forall|i: int| #[trigger] sh_parses(s@, i) ==> name_read_safe(s@, i) && data_read_safe(s@, i),
    ensures
        r matches Some(k) ==> k < 0x1_0000 && first_strtab(s@, 0) == Some(k as int),
        r is None ==> first_strtab(s@, 0) is None,
{
    let count = read_field(s, 0, 60, 2, 48, 2) as u128;
    proof {
        assert(pow256(2) == 0x1_0000) by { reveal_with_fuel(pow256, 3); }
    }
    let mut k: u128 = 0;
    while k < count
        invariant
            header_parses(s@),
            forall|i: int| #[trigger] sh_parses(s@, i) ==> name_read_safe(s@, i) && data_read_safe(s@, i),
            count == sh_count_field(s@),
            count < 0x1_0000,
            k <= count,
            first_strtab(s@, 0) == first_strtab(s@, k as int),
        decreases count - k,
    {
        if !sh_parses_at(s, k) {
            return None;
        }
        if named_strtab_at(s, k) {
            return Some(k);
        }
        k = k + 1;
    }
    None
}

/// Whether the string at `index` of `.strtab` can be read, given where
/// `.strtab` is.
fn string_read_safe_at(s: &[u8], strtab: Option<u128>, index: u128) -> (r: bool)
    requires
        header_parses(s@),
        forall|i: int| #[trigger] sh_parses(s@, i) ==> name_read_safe(s@, i) && data_read_safe(s@, i),
        strtab matches Some(k) ==> k < 0x1_0000 && first_strtab(s@, 0) == Some(k as int),
        strtab is None ==> first_strtab(s@, 0) is None,
        index < 0x1_0000_0000,
    ensures
        r == string_read_safe(s@, index as int),
{
    match strtab {
        None => true,
        Some(k) => {
            let (t, _, off, size) = section_fields_at(s, k);
            if t != 3 {
                return true;
            }
            proof {
                lemma_first_strtab_parses(s@, 0);
                assert(data_read_safe(s@, k as int));
            }
            if index > size {
                return false;
            }
            let len = s.len();
            assert(off + size <= len);
            c_str_in(s, (off + index) as usize, (off + size) as usize).is_some()
        },
    }
}

/// The section that `first_strtab` finds is one that the file holds.
proof fn lemma_first_strtab_parses(s: Seq<u8>, i: int)
    ensures
        first_strtab(s, i) matches Some(k) ==> sh_parses(s, k),
    decreases sh_count_field(s) - i,
{
    if !(i < 0 || i >= sh_count_field(s) || !sh_parses(s, i)) && !named_strtab(s, i) {
        lemma_first_strtab_parses(s, i + 1);
    }
}

/// Whether the name of each entry of the symbol table that section `i`
/// may hold can be read.
fn entry_names_safe(s: &[u8], strtab: Option<u128>, i: u128) -> (r: bool)
    requires
        header_parses(s@),
        forall|i: int| #[trigger] sh_parses(s@, i) ==> name_read_safe(s@, i) && data_read_safe(s@, i),
        strtab matches Some(k) ==> k < 0x1_0000 && first_strtab(s@, 0) == Some(k as int),
        strtab is None ==> first_strtab(s@, 0) is None,
        i < 0x1_0000,
    ensures
        r == symbol_names_safe(s@, i as int),
{
    let (t, _, off, size) = section_fields_at(s, i);
    if !(t == 2 && s[4] == 2) {
        return true;
    }
    let n = size / 24;
    let mut j: u128 = 0;
    while j < n
        invariant
            header_parses(s@),
            forall|i: int| #[trigger] sh_parses(s@, i) ==> name_read_safe(s@, i) && data_read_safe(s@, i),
            strtab matches Some(k) ==> k < 0x1_0000 && first_strtab(s@, 0) == Some(k as int),
            strtab is None ==> first_strtab(s@, 0) is None,
            sec_type_field(s@, i as int) == 2,
            is_elf64(s@),
            off == sec_offset_field(s@, i as int),
            off < 0x1_0000_0000_0000_0000,
            n == sec_size_field(s@, i as int) / 24,
            n < 0x1_0000_0000_0000_0000,
            j <= n,
            forall|j2: int| 0 <= j2 < j ==> string_read_safe(s@, #[trigger] sym_name_field(s@, i as int, j2)),
        decreases n - j,
    {
        proof {
            lemma_pow256_small(4);
            assert(pow256(4) == 0x1_0000_0000) by { reveal_with_fuel(pow256, 5); }
            lemma_le_bound(s@, off + 24 * j, 4);
        }
        let name = read_le(s, off + 24 * j, 4) as u128;
        assert(name == sym_name_field(s@, i as int, j as int));
        if !string_read_safe_at(s, strtab, name) {
            assert(!string_read_safe(s@, sym_name_field(s@, i as int, j as int)));
            return false;
        }
        j = j + 1;
    }
    true
}

/// Whether the name of every symbol of every symbol table can be read.
fn symbols_safe(s: &[u8], strtab: Option<u128>) -> (r: bool)
    requires
        header_parses(s@),
        forall|i: int| #[trigger] sh_parses(s@, i) ==> name_read_safe(s@, i) && data_read_safe(s@, i),
        strtab matches Some(k) ==> k < 0x1_0000 && first_strtab(s@, 0) == Some(k as int),
        strtab is None ==> first_strtab(s@, 0) is None,
    ensures
        r == (forall|i: int| #[trigger] sh_parses(s@, i) ==> symbol_names_safe(s@, i)),
{
    let mut i: u128 = 0;
    while i < SHN_LORESERVE as u128
        invariant
            header_parses(s@),
            forall|i: int| #[trigger] sh_parses(s@, i) ==> name_read_safe(s@, i) && data_read_safe(s@, i),
            strtab matches Some(k) ==> k < 0x1_0000 && first_strtab(s@, 0) == Some(k as int),
            strtab is None ==> first_strtab(s@, 0) is None,
            i <= SHN_LORESERVE,
            forall|j: int| 0 <= j < i ==> #[trigger] sh_parses(s@, j) ==> symbol_names_safe(s@, j),
        decreases SHN_LORESERVE - i,
    {
        if sh_parses_at(s, i) && !entry_names_safe(s, strtab, i) {
            assert(sh_parses(s@, i as int));
            return false;
        }
        i = i + 1;
    }
    assert forall|j: int| #[trigger] sh_parses(s@, j) implies symbol_names_safe(s@, j) by {
        assert(0 <= j < SHN_LORESERVE);
    }
    true
}

/// Whether `xmas_elf` reads every part of the ELF file `input` that the
/// loader asks for without panicking: `elf_readable`, decided.
pub fn check_elf_readable(input: &[u8]) -> (r: bool)
    ensures
        r == elf_readable(input@),
{
    if !header_parses_at(input) {
        return true;
    }
    if !sections_safe(input) {
        return false;
    }
    if !program_headers_safe(input) {
        return false;
    }
    let strtab = strtab_at(input);
    symbols_safe(input, strtab)
}

/// Whether, where the header of `input` parses, every program header can be
/// read safely: `program_headers_readable`, decided.
pub fn check_program_headers_readable(input: &[u8]) -> (r: bool)
    ensures
        r == program_headers_readable(input@),
{
    !header_parses_at(input) || program_headers_safe(input)
}

} // verus!
