//! Character-level scanning used by the parser of the textual symbol table:
//! Unicode whitespace, trimming, splitting into lines and words, substring
//! search and unsigned integer parsing with a radix.

use vstd::prelude::*;

verus! {

/// Unicode `White_Space`, the property that `char::is_whitespace` tests.
pub open spec fn is_ws(c: char) -> bool {
    let v = c as u32;
    ||| 0x09 <= v <= 0x0D
    ||| v == 0x20 || v == 0x85 || v == 0xA0 || v == 0x1680
    ||| 0x2000 <= v <= 0x200A
    ||| v == 0x2028 || v == 0x2029 || v == 0x202F || v == 0x205F || v == 0x3000
}

/// Whether `c` is Unicode whitespace.
pub fn is_whitespace(c: char) -> (r: bool)
    ensures
        r == is_ws(c),
{
    let v = c as u32;
    (0x09 <= v && v <= 0x0D) || v == 0x20 || v == 0x85 || v == 0xA0 || v == 0x1680 || (0x2000
        <= v && v <= 0x200A) || v == 0x2028 || v == 0x2029 || v == 0x202F || v == 0x205F || v
        == 0x3000
}

/// `s` without its leading whitespace.
pub open spec fn trim_start(s: Seq<char>) -> Seq<char>
    decreases s.len(),
{
    if s.len() > 0 && is_ws(s[0]) {
        trim_start(s.drop_first())
    } else {
        s
    }
}

/// `s` without its trailing whitespace.
pub open spec fn trim_end(s: Seq<char>) -> Seq<char>
    decreases s.len(),
{
    if s.len() > 0 && is_ws(s.last()) {
        trim_end(s.drop_last())
    } else {
        s
    }
}

/// `s` without leading and trailing whitespace (what `str::trim` gives).
pub open spec fn trim(s: Seq<char>) -> Seq<char> {
    trim_end(trim_start(s))
}

/// The characters of `cs` from `a` (inclusive) to `b` (exclusive), copied.
pub fn slice_of(cs: &Vec<char>, a: usize, b: usize) -> (r: Vec<char>)
    requires
        a <= b <= cs@.len(),
    ensures
        r@ == cs@.subrange(a as int, b as int),
{
    let mut r: Vec<char> = Vec::new();
    let mut i = a;
    while i < b
        invariant
            a <= i <= b <= cs@.len(),
            r@ == cs@.subrange(a as int, i as int),
        decreases b - i,
    {
        r.push(cs[i]);
        assert(r@ =~= cs@.subrange(a as int, i + 1));
        i = i + 1;
    }
    r
}

/// `cs` without leading and trailing whitespace.
pub fn trimmed(cs: &Vec<char>) -> (r: Vec<char>)
    ensures
        r@ == trim(cs@),
{
    let n = cs.len();
    let mut i: usize = 0;
    assert(cs@.subrange(0, n as int) =~= cs@);
    while i < n && is_whitespace(cs[i])
        invariant
            i <= n == cs@.len(),
            trim_start(cs@) == trim_start(cs@.subrange(i as int, n as int)),
        decreases n - i,
    {
        assert(cs@.subrange(i as int, n as int).drop_first() =~= cs@.subrange(i + 1, n as int));
        i = i + 1;
    }
    assert(trim_start(cs@) == cs@.subrange(i as int, n as int));
    let mut j: usize = n;
    while j > i && is_whitespace(cs[j - 1])
        invariant
            i <= j <= n == cs@.len(),
            trim(cs@) == trim_end(cs@.subrange(i as int, j as int)),
        decreases j - i,
    {
        assert(cs@.subrange(i as int, j as int).drop_last() =~= cs@.subrange(i as int, j - 1));
        j = j - 1;
    }
    slice_of(cs, i, j)
}

/// The first index at or after `i` at which `t` holds `c`, or the length of
/// `t` when there is none.
pub open spec fn index_from(t: Seq<char>, c: char, i: int) -> int
    decreases t.len() - i,
{
    if i >= t.len() {
        t.len() as int
    } else if t[i] == c {
        i
    } else {
        index_from(t, c, i + 1)
    }
}

pub proof fn lemma_index_from(t: Seq<char>, c: char, i: int)
    requires
        0 <= i <= t.len(),
    ensures
        i <= index_from(t, c, i) <= t.len(),
        index_from(t, c, i) < t.len() ==> t[index_from(t, c, i)] == c,
        forall|k: int| i <= k < index_from(t, c, i) ==> t[k] != c,
    decreases t.len() - i,
{
    if i < t.len() && t[i] != c {
        lemma_index_from(t, c, i + 1);
    }
}

/// `l` without one trailing carriage return.
pub open spec fn strip_cr(l: Seq<char>) -> Seq<char> {
    if l.len() > 0 && l.last() == '\r' {
        l.drop_last()
    } else {
        l
    }
}

/// The lines of `t` from index `i` on, as `str::lines` splits them: at each
/// line feed, dropping a carriage return just before it; a last line without
/// a line feed is kept as it is, and nothing follows a final line feed.
pub open spec fn lines_from(t: Seq<char>, i: int) -> Seq<Seq<char>>
    decreases t.len() - i,
{
    if i < 0 || i >= t.len() {
        Seq::empty()
    } else {
        let e = index_from(t, '\n', i);
        if e < t.len() {
            proof {
                lemma_index_from(t, '\n', i);
            }
            seq![strip_cr(t.subrange(i, e))] + lines_from(t, e + 1)
        } else {
            seq![t.subrange(i, t.len() as int)]
        }
    }
}

/// The lines of `t`.
pub open spec fn lines(t: Seq<char>) -> Seq<Seq<char>> {
    lines_from(t, 0)
}

/// The views of the vectors in `v`.
pub open spec fn views_of(v: Seq<Vec<char>>) -> Seq<Seq<char>> {
    v.map_values(|x: Vec<char>| x@)
}

/// Splits `cs` into its lines.
pub fn lines_of(cs: &Vec<char>) -> (r: Vec<Vec<char>>)
    ensures
        views_of(r@) == lines(cs@),
{
    let n = cs.len();
    let mut r: Vec<Vec<char>> = Vec::new();
    let mut pos: usize = 0;
    while pos < n
        invariant
            pos <= n == cs@.len(),
            lines(cs@) == views_of(r@) + lines_from(cs@, pos as int),
        decreases n - pos,
    {
        let mut e = pos;
        while e < n && cs[e] != '\n'
            invariant
                pos <= e <= n == cs@.len(),
                index_from(cs@, '\n', pos as int) == index_from(cs@, '\n', e as int),
            decreases n - e,
        {
            e = e + 1;
        }
        let ghost rest = lines_from(cs@, pos as int);
        if e < n {
            let mut end = e;
            if end > pos && cs[end - 1] == '\r' {
                end = end - 1;
            }
            let line = slice_of(cs, pos, end);
            assert(line@ == strip_cr(cs@.subrange(pos as int, e as int)));
            let ghost before = views_of(r@);
            r.push(line);
            assert(views_of(r@) =~= before.push(line@));
            assert(rest == seq![line@] + lines_from(cs@, e + 1));
            assert(lines(cs@) =~= views_of(r@) + lines_from(cs@, e + 1));
            pos = e + 1;
        } else {
            let line = slice_of(cs, pos, n);
            let ghost before = views_of(r@);
            r.push(line);
            assert(views_of(r@) =~= before.push(line@));
            assert(rest == seq![line@]);
            assert(lines_from(cs@, n as int) =~= Seq::<Seq<char>>::empty());
            assert(lines(cs@) =~= views_of(r@) + lines_from(cs@, n as int));
            pos = n;
        }
    }
    assert(lines_from(cs@, pos as int) =~= Seq::<Seq<char>>::empty());
    assert(lines(cs@) =~= views_of(r@));
    r
}

/// The first index at or after `i` at which `t` holds whitespace, or the
/// length of `t`.
pub open spec fn ws_from(t: Seq<char>, i: int) -> int
    decreases t.len() - i,
{
    if i >= t.len() {
        t.len() as int
    } else if is_ws(t[i]) {
        i
    } else {
        ws_from(t, i + 1)
    }
}

pub proof fn lemma_ws_from(t: Seq<char>, i: int)
    requires
        0 <= i <= t.len(),
    ensures
        i <= ws_from(t, i) <= t.len(),
        ws_from(t, i) < t.len() ==> is_ws(t[ws_from(t, i)]),
        forall|k: int| i <= k < ws_from(t, i) ==> !is_ws(t[k]),
    decreases t.len() - i,
{
    if i < t.len() && !is_ws(t[i]) {
        lemma_ws_from(t, i + 1);
    }
}

/// The whitespace-separated words of `t` from index `i` on (what
/// `str::split_whitespace` yields).
pub open spec fn words_from(t: Seq<char>, i: int) -> Seq<Seq<char>>
    decreases t.len() - i,
{
    if i < 0 || i >= t.len() {
        Seq::empty()
    } else if is_ws(t[i]) {
        words_from(t, i + 1)
    } else {
        let e = ws_from(t, i);
        proof {
            lemma_ws_from(t, i);
            lemma_ws_from(t, i + 1);
        }
        seq![t.subrange(i, e)] + words_from(t, e)
    }
}

/// The whitespace-separated words of `t`.
pub open spec fn words(t: Seq<char>) -> Seq<Seq<char>> {
    words_from(t, 0)
}

/// Splits `cs` into its whitespace-separated words.
pub fn words_of(cs: &Vec<char>) -> (r: Vec<Vec<char>>)
    ensures
        views_of(r@) == words(cs@),
{
    let n = cs.len();
    let mut r: Vec<Vec<char>> = Vec::new();
    let mut pos: usize = 0;
    while pos < n
        invariant
            pos <= n == cs@.len(),
            words(cs@) == views_of(r@) + words_from(cs@, pos as int),
        decreases n - pos,
    {
        if is_whitespace(cs[pos]) {
            pos = pos + 1;
        } else {
            let mut e = pos + 1;
            proof {
                lemma_ws_from(cs@, pos as int);
            }
            while e < n && !is_whitespace(cs[e])
                invariant
                    pos < e <= n == cs@.len(),
                    ws_from(cs@, pos as int) == ws_from(cs@, e as int),
                decreases n - e,
            {
                e = e + 1;
            }
            let w = slice_of(cs, pos, e);
            let ghost before = views_of(r@);
            r.push(w);
            assert(views_of(r@) =~= before.push(w@));
            assert(words(cs@) =~= views_of(r@) + words_from(cs@, e as int));
            pos = e;
        }
    }
    assert(words_from(cs@, pos as int) =~= Seq::<Seq<char>>::empty());
    assert(words(cs@) =~= views_of(r@));
    r
}

/// `needle` occurs in `hay` at index `i`.
pub open spec fn occurs_at(hay: Seq<char>, needle: Seq<char>, i: int) -> bool {
    0 <= i && i + needle.len() <= hay.len() && hay.subrange(i, i + needle.len()) == needle
}

/// The first index at which `needle` occurs in `hay`, if it occurs at all
/// (what `str::find` gives, counted in characters).
pub open spec fn first_occurrence(hay: Seq<char>, needle: Seq<char>) -> Option<int> {
    if exists|i: int| occurs_at(hay, needle, i) {
        Some(
            choose|i: int|
                occurs_at(hay, needle, i) && forall|j: int| 0 <= j < i ==> !occurs_at(hay, needle, j),
        )
    } else {
        None
    }
}

/// `needle` occurs somewhere in `hay`.
pub open spec fn contains(hay: Seq<char>, needle: Seq<char>) -> bool {
    exists|i: int| occurs_at(hay, needle, i)
}

/// Returns the first index at which `needle` occurs in `hay`.
pub fn find(hay: &Vec<char>, needle: &Vec<char>) -> (r: Option<usize>)
    ensures
        match r {
            Some(i) => occurs_at(hay@, needle@, i as int) && forall|j: int|
                0 <= j < i ==> !occurs_at(hay@, needle@, j),
            None => forall|j: int| !occurs_at(hay@, needle@, j),
        },
        r matches Some(i) ==> first_occurrence(hay@, needle@) == Some(i as int),
        r is None <==> !contains(hay@, needle@),
{
    let n = hay.len();
    let m = needle.len();
    if m > n {
        return None;
    }
    let mut i: usize = 0;
    while i <= n - m
        invariant
            n == hay@.len(),
            m == needle@.len(),
            m <= n,
            i <= n - m + 1,
            forall|j: int| 0 <= j < i ==> !occurs_at(hay@, needle@, j),
        decreases n - m + 1 - i,
    {
        let mut k: usize = 0;
        let mut same = true;
        while k < m
            invariant
                n == hay@.len(),
                m == needle@.len(),
                i + m <= n,
                k <= m,
                same == forall|t: int| 0 <= t < k ==> hay@[i + t] == needle@[t],
            decreases m - k,
        {
            if hay[i + k] != needle[k] {
                same = false;
            }
            k = k + 1;
        }
        if same {
            assert(hay@.subrange(i as int, i + m) =~= needle@);
            proof {
                let c = choose|c: int|
                    occurs_at(hay@, needle@, c) && forall|j: int|
                        0 <= j < c ==> !occurs_at(hay@, needle@, j);
                assert(occurs_at(hay@, needle@, i as int));
                if c < i {
                } else if c > i {
                }
            }
            return Some(i);
        }
        assert(!occurs_at(hay@, needle@, i as int)) by {
            if occurs_at(hay@, needle@, i as int) {
                let t = choose|t: int| 0 <= t < m && hay@[i + t] != needle@[t];
                assert(hay@.subrange(i as int, i + m)[t] == needle@[t]);
            }
        }
        i = i + 1;
    }
    None
}

/// The value of the digit `c` in the given radix, if it is one (what
/// `char::to_digit` gives).
pub open spec fn digit_value(c: char, radix: nat) -> Option<nat> {
    let v = c as u32;
    let d: int = if 0x30 <= v <= 0x39 {
        v - 0x30
    } else if 0x61 <= v <= 0x7A {
        v - 0x61 + 10
    } else if 0x41 <= v <= 0x5A {
        v - 0x41 + 10
    } else {
        36
    };
    if d < radix {
        Some(d as nat)
    } else {
        None
    }
}

/// Every character of `s` is a digit in the radix.
pub open spec fn all_digits(s: Seq<char>, radix: nat) -> bool {
    forall|i: int| 0 <= i < s.len() ==> (#[trigger] digit_value(s[i], radix)) is Some
}

/// The number that the digits `s` write in the radix.
pub open spec fn digits_value(s: Seq<char>, radix: nat) -> nat
    decreases s.len(),
{
    if s.len() == 0 {
        0
    } else {
        digits_value(s.drop_last(), radix) * radix + match digit_value(s.last(), radix) {
            Some(d) => d,
            None => 0,
        }
    }
}

/// What `usize::from_str_radix` gives for `s`: an optional `+`, then at
/// least one digit, and a value that fits in a `usize`.
pub open spec fn parse_radix(s: Seq<char>, radix: nat) -> Option<usize> {
    let d = if s.len() > 0 && s[0] == '+' {
        s.drop_first()
    } else {
        s
    };
    if d.len() == 0 || !all_digits(d, radix) || digits_value(d, radix) > usize::MAX {
        None
    } else {
        Some(digits_value(d, radix) as usize)
    }
}

proof fn lemma_prefix_value_le(s: Seq<char>, k: int, radix: nat)
    requires
        0 <= k <= s.len(),
        radix >= 1,
    ensures
        digits_value(s.subrange(0, k), radix) <= digits_value(s, radix),
    decreases s.len(),
{
    if k < s.len() {
        assert(s.drop_last().subrange(0, k) =~= s.subrange(0, k));
        lemma_prefix_value_le(s.drop_last(), k, radix);
        let x = digits_value(s.drop_last(), radix);
        assert(x <= x * radix) by (nonlinear_arith)
            requires
                radix >= 1,
        ;
    } else {
        assert(s.subrange(0, k) =~= s);
    }
}

fn digit_of(c: char, radix: u32) -> (r: Option<u32>)
    requires
        2 <= radix <= 36,
    ensures
        match r {
            Some(d) => digit_value(c, radix as nat) == Some(d as nat),
            None => digit_value(c, radix as nat) is None,
        },
{
    let v = c as u32;
    let d: u32 = if 0x30 <= v && v <= 0x39 {
        v - 0x30
    } else if 0x61 <= v && v <= 0x7A {
        v - 0x61 + 10
    } else if 0x41 <= v && v <= 0x5A {
        v - 0x41 + 10
    } else {
        36
    };
    if d < radix {
        Some(d)
    } else {
        None
    }
}

/// Parses `cs` as an unsigned number in the radix, as `usize::from_str_radix`
/// does.
pub fn parse_usize(cs: &Vec<char>, radix: u32) -> (r: Option<usize>)
    requires
        2 <= radix <= 36,
    ensures
        r == parse_radix(cs@, radix as nat),
{
    let n = cs.len();
    let mut i: usize = 0;
    if n > 0 && cs[0] == '+' {
        i = 1;
    }
    let ghost d = if cs@.len() > 0 && cs@[0] == '+' {
        cs@.drop_first()
    } else {
        cs@
    };
    assert(d =~= cs@.subrange(i as int, n as int));
    if i == n {
        return None;
    }
    let start = i;
    let mut v: usize = 0;
    while i < n
        invariant
            start <= i <= n == cs@.len(),
            d == cs@.subrange(start as int, n as int),
            d == (if cs@.len() > 0 && cs@[0] == '+' {
                cs@.drop_first()
            } else {
                cs@
            }),
            all_digits(cs@.subrange(start as int, i as int), radix as nat),
            v == digits_value(cs@.subrange(start as int, i as int), radix as nat),
            2 <= radix <= 36,
        decreases n - i,
    {
        let ghost pre = cs@.subrange(start as int, i as int);
        let ghost next = cs@.subrange(start as int, i + 1);
        assert(next.drop_last() =~= pre);
        assert(next.last() == cs@[i as int]);
        assert(d[i - start] == cs@[i as int]);
        match digit_of(cs[i], radix) {
            None => {
                assert(!all_digits(d, radix as nat)) by {
                    assert(digit_value(d[i - start], radix as nat) is None);
                }
                return None;
            },
            Some(dg) => {
                let m = v.checked_mul(radix as usize);
                let s = match m {
                    Some(m) => m.checked_add(dg as usize),
                    None => None,
                };
                match s {
                    Some(s) => {
                        assert(all_digits(next, radix as nat)) by {
                            assert forall|k: int| 0 <= k < next.len() implies (#[trigger] digit_value(
                                next[k],
                                radix as nat,
                            )) is Some by {
                                if k < pre.len() {
                                    assert(next[k] == pre[k]);
                                }
                            }
                        }
                        v = s;
                    },
                    None => {
                        proof {
                            assert(d.subrange(0, (i + 1 - start) as int) =~= next);
                            lemma_prefix_value_le(d, (i + 1 - start) as int, radix as nat);
                            assert(digits_value(next, radix as nat) == v * radix + dg);
                        }
                        return None;
                    },
                }
            },
        }
        i = i + 1;
    }
    assert(cs@.subrange(start as int, n as int) =~= d);
    Some(v)
}

/// Whether `a` and `b` hold the same characters.
pub fn same_chars(a: &Vec<char>, b: &Vec<char>) -> (r: bool)
    ensures
        r == (a@ == b@),
{
    if a.len() != b.len() {
        return false;
    }
    let mut i: usize = 0;
    while i < a.len()
        invariant
            i <= a@.len() == b@.len(),
            forall|k: int| 0 <= k < i ==> a@[k] == b@[k],
        decreases a@.len() - i,
    {
        if a[i] != b[i] {
            return false;
        }
        i = i + 1;
    }
    assert(a@ =~= b@);
    true
}

/// `s` begins with `p`.
pub open spec fn starts_with(s: Seq<char>, p: Seq<char>) -> bool {
    p.len() <= s.len() && s.subrange(0, p.len() as int) == p
}

/// Whether `s` begins with `p`.
pub fn has_prefix(s: &Vec<char>, p: &Vec<char>) -> (r: bool)
    ensures
        r == starts_with(s@, p@),
{
    if p.len() > s.len() {
        return false;
    }
    let mut i: usize = 0;
    while i < p.len()
        invariant
            i <= p@.len() <= s@.len(),
            forall|k: int| 0 <= k < i ==> s@[k] == p@[k],
        decreases p@.len() - i,
    {
        if s[i] != p[i] {
            assert(s@.subrange(0, p@.len() as int)[i as int] != p@[i as int]);
            return false;
        }
        i = i + 1;
    }
    assert(s@.subrange(0, p@.len() as int) =~= p@);
    true
}

/// There are no more lines in `t` from index `i` on than characters.
pub proof fn lemma_lines_from_len(t: Seq<char>, i: int)
    requires
        0 <= i <= t.len(),
    ensures
        lines_from(t, i).len() <= t.len() - i,
    decreases t.len() - i,
{
    if i < t.len() {
        lemma_index_from(t, '\n', i);
        let e = index_from(t, '\n', i);
        if e < t.len() {
            lemma_lines_from_len(t, e + 1);
        }
    }
}

/// The pieces of `t` from index `i` on between the occurrences of `c` (what
/// `str::split` with a character yields): there is always at least one.
pub open spec fn split_from(t: Seq<char>, c: char, i: int) -> Seq<Seq<char>>
    decreases t.len() - i + 1,
{
    if i < 0 || i > t.len() {
        Seq::empty()
    } else {
        let e = index_from(t, c, i);
        if e < t.len() {
            proof {
                lemma_index_from(t, c, i);
            }
            seq![t.subrange(i, e)] + split_from(t, c, e + 1)
        } else {
            seq![t.subrange(i, t.len() as int)]
        }
    }
}

/// Splits `cs` at every occurrence of `c`.
pub fn split_chars(cs: &Vec<char>, c: char) -> (r: Vec<Vec<char>>)
    ensures
        views_of(r@) == split_from(cs@, c, 0),
{
    let n = cs.len();
    let mut r: Vec<Vec<char>> = Vec::new();
    let mut pos: usize = 0;
    loop
        invariant
            pos <= n == cs@.len(),
            split_from(cs@, c, 0) == views_of(r@) + split_from(cs@, c, pos as int),
        decreases n - pos,
    {
        let mut e = pos;
        while e < n && cs[e] != c
            invariant
                pos <= e <= n == cs@.len(),
                index_from(cs@, c, pos as int) == index_from(cs@, c, e as int),
            decreases n - e,
        {
            e = e + 1;
        }
        let piece = slice_of(cs, pos, e);
        let ghost before = views_of(r@);
        let ghost rest = split_from(cs@, c, pos as int);
        r.push(piece);
        assert(views_of(r@) =~= before.push(piece@));
        if e < n {
            assert(rest == seq![piece@] + split_from(cs@, c, e + 1));
            assert(split_from(cs@, c, 0) =~= views_of(r@) + split_from(cs@, c, e + 1));
            pos = e + 1;
        } else {
            assert(rest == seq![piece@]);
            assert(split_from(cs@, c, 0) =~= views_of(r@));
            return r;
        }
    }
}

/// Appends `c` to `s` (`String::push`).
#[verifier::external_body]
fn push_char(s: &mut String, c: char)
    ensures
        final(s)@ == old(s)@.push(c),
{
    s.push(c);
}

/// The characters of `cs` as a `String`.
pub fn string_of(cs: &Vec<char>) -> (r: String)
    ensures
        r@ == cs@,
{
    let mut r = String::new();
    let mut i: usize = 0;
    while i < cs.len()
        invariant
            i <= cs@.len(),
            r@ == cs@.subrange(0, i as int),
        decreases cs@.len() - i,
    {
        push_char(&mut r, cs[i]);
        assert(r@ =~= cs@.subrange(0, i + 1));
        i = i + 1;
    }
    assert(cs@.subrange(0, cs@.len() as int) =~= cs@);
    r
}

} // verus!
