//! The thread-local storage (TLS) area "image" that every new task copies as
//! the initial contents of its own TLS area.
//!
//! Statically-linked TLS sections (from the base kernel image) sit at fixed
//! offsets *before* the TLS self pointer; dynamically-loaded TLS sections are
//! given offsets *after* it, first-fit, skipping the pointer's own slot.

use crate::range_map::{range_map_points, points_after_insert, range_map_new, range_map_insert, range_map_gaps, range_map_ranges, range_map_overlaps, covers_some, are_gaps, are_runs, is_gap, is_run};
use crate::nano_core::{is_canonical, virtual_address};
use crate::section::SectionType;
use rangemap::RangeMap;
use vstd::prelude::*;

verus! {

/// The size of the TLS self pointer (one `usize` on x86_64).
pub const POINTER_SIZE: usize = 8;

/// Whether the cached data image can be used as is.
#[derive(Debug, Clone, Copy, PartialEq, Eq, Structural)]
pub enum CacheStatus {
    /// The cached data image is up to date and can be used immediately.
    Fresh,
    /// The cached data image is out of date and needs to be regenerated.
    Invalidated,
}

/// A TLS section known to the TLS area; its identifier is its index in the area's section list.
#[derive(Debug, Clone, Copy)]
pub struct TlsSectionRecord {
    /// `TlsData` (initialized contents) or `TlsBss` (zeroed contents).
    pub typ: SectionType,
    /// Size in bytes, never zero.
    pub size: usize,
    /// Offset of the section within the static or the dynamic part of the area.
    pub offset: usize,
    /// Whether the section belongs to the statically-linked part.
    pub is_static: bool,
    /// The value that relocations against this section use as its address.
    pub virt_addr: usize,
}

/// Every key that `pts` covers lies in the range of the (static or dynamic)
/// record it names, and every key of such a record's range is covered by it.
pub open spec fn points_match_records(
    pts: Map<usize, usize>,
    recs: Seq<TlsSectionRecord>,
    is_static: bool,
) -> bool {
    &&& forall|k: usize| #[trigger]
        pts.dom().contains(k) ==> {
            &&& (pts[k] as int) < recs.len()
            &&& recs[pts[k] as int].is_static == is_static
            &&& recs[pts[k] as int].offset <= k < recs[pts[k] as int].offset + recs[pts[k] as int].size
        }
    &&& forall|i: int, k: usize|
        0 <= i < recs.len() && (#[trigger] recs[i]).is_static == is_static && recs[i].offset <= k
            < recs[i].offset + recs[i].size ==> #[trigger] pts.dom().contains(k) && pts[k] == i
}

/// Whether a section of `size` bytes can start at dynamic offset `start`:
/// aligned, after the self pointer's slot, below `usize::MAX`, and over free keys only.
pub open spec fn dynamic_slot_fits(pts: Map<usize, usize>, start: int, size: int, align: int) -> bool {
    &&& POINTER_SIZE <= start
    &&& start % align == 0
    &&& start + size <= usize::MAX
    &&& forall|k: usize| start <= k < start + size ==> !#[trigger] pts.dom().contains(k)
}

/// The byte at offset `k` of one part (static or dynamic) of the TLS area:
/// the section's data for a `.tdata` section, zero for `.tbss` and for uncovered offsets.
pub open spec fn area_byte(
    pts: Map<usize, usize>,
    recs: Seq<TlsSectionRecord>,
    data: Seq<Vec<u8>>,
    k: int,
) -> u8 {
    if 0 <= k <= usize::MAX && pts.dom().contains(k as usize) {
        let id = pts[k as usize] as int;
        if recs[id].typ == SectionType::TlsData {
            data[id]@[k - recs[id].offset]
        } else {
            0
        }
    } else {
        0
    }
}

/// The TLS data image: the static part, the TLS self pointer's slot (zeroed
/// here), then the dynamic part, whose offsets count from the self pointer.
pub open spec fn tls_image_of(
    static_pts: Map<usize, usize>,
    dynamic_pts: Map<usize, usize>,
    recs: Seq<TlsSectionRecord>,
    end_static: int,
    end_dynamic: int,
    data: Seq<Vec<u8>>,
) -> Seq<u8> {
    Seq::new(
        (end_static + vstd::math::max(POINTER_SIZE as int, end_dynamic)) as nat,
        |p: int|
            if p < end_static {
                area_byte(static_pts, recs, data, p)
            } else if p < end_static + POINTER_SIZE {
                0u8
            } else {
                area_byte(dynamic_pts, recs, data, p - end_static)
            },
    )
}

/// The value a statically-linked TLS section at `offset` gets as its address:
/// minus its distance from the end of all static TLS sections (in two's complement).
pub open spec fn static_tls_address(total_static_tls_size: usize, offset: usize) -> usize {
    if total_static_tls_size == offset {
        0
    } else {
        (usize::MAX - (total_static_tls_size - offset) + 1) as usize
    }
}

/// The least multiple of `align` that is not below `start`.
pub open spec fn align_up(start: int, align: int) -> int {
    if start % align == 0 {
        start
    } else {
        start + align - start % align
    }
}

pub proof fn lemma_align_up(start: int, align: int)
    requires
        start >= 0,
        align > 0,
    ensures
        align_up(start, align) >= start,
        align_up(start, align) % align == 0,
        align_up(start, align) < start + align,
        forall|x: int| x >= start && #[trigger] (x % align) == 0 ==> x >= align_up(start, align),
{
    let r = start % align;
    let q = start / align;
    vstd::arithmetic::div_mod::lemma_fundamental_div_mod(start, align);
    if r != 0 {
        assert((start + align - r) % align == 0) by {
            vstd::arithmetic::div_mod::lemma_mod_multiples_basic(q + 1, align);
            assert(start + align - r == (q + 1) * align) by (nonlinear_arith)
                requires start == align * q + r;
        }
        assert forall|x: int| x >= start && #[trigger] (x % align) == 0 implies x >= align_up(start, align) by {
            vstd::arithmetic::div_mod::lemma_fundamental_div_mod(x, align);
            let qx = x / align;
            assert(x == align * qx);
            if x < start + align - r {
                assert(align * q < align * qx < align * (q + 1)) by (nonlinear_arith)
                    requires
                        x == align * qx,
                        start == align * q + r,
                        0 < r < align,
                        x >= start,
                        x < start + align - r,
                ;
                assert(q < qx < q + 1) by (nonlinear_arith)
                    requires align * q < align * qx < align * (q + 1), align > 0;
            }
        }
    }
}

/// A slot that fits inside the dynamic part lies inside a single gap, after
/// that gap's first aligned offset.
proof fn lemma_fit_within_gap(pts: Map<usize, usize>, x: int, size: int, align: int, s: int, e: int)
    requires
        align > 0,
        size > 0,
        is_gap(pts, POINTER_SIZE as int, usize::MAX as int, s, e),
        dynamic_slot_fits(pts, x, size, align),
        s <= x < e,
    ensures
        align_up(s, align) <= x,
        x + size <= e,
{
    lemma_align_up(s, align);
    if e < x + size {
        assert(x <= e < x + size);
        assert(e != usize::MAX);
        assert(pts.dom().contains(e as usize));
        assert(!pts.dom().contains(e as usize));
    }
}

/// Rounds `start` up to a multiple of `align`, or `None` if that exceeds `usize::MAX`.
fn checked_align_up(start: usize, align: usize) -> (r: Option<usize>)
    requires
        align > 0,
    ensures
        r matches Some(v) ==> v == align_up(start as int, align as int),
        r is None ==> align_up(start as int, align as int) > usize::MAX,
{
    let rem = start % align;
    if rem == 0 {
        Some(start)
    } else {
        start.checked_add(align - rem)
    }
}

/// Appends `count` zero bytes.
fn push_zeros(v: &mut Vec<u8>, count: usize)
    ensures
        final(v)@ == old(v)@ + Seq::new(count as nat, |i: int| 0u8),
{
    let mut n: usize = 0;
    while n < count
        invariant
            n <= count,
            v@ == old(v)@ + Seq::new(n as nat, |i: int| 0u8),
        decreases count - n,
    {
        v.push(0u8);
        n = n + 1;
        assert(v@ =~= old(v)@ + Seq::new(n as nat, |i: int| 0u8));
    }
}

/// Appends all bytes of `src`.
fn push_all(v: &mut Vec<u8>, src: &Vec<u8>)
    ensures
        final(v)@ == old(v)@ + src@,
{
    let mut n: usize = 0;
    while n < src.len()
        invariant
            n <= src.len(),
            v@ == old(v)@ + src@.subrange(0, n as int),
        decreases src.len() - n,
    {
        v.push(src[n]);
        n = n + 1;
        assert(v@ =~= old(v)@ + src@.subrange(0, n as int));
    }
    assert(src@.subrange(0, src.len() as int) =~= src@);
}

/// A maximal run of one section's identifier is exactly that section's range.
proof fn lemma_run_is_record(
    pts: Map<usize, usize>,
    recs: Seq<TlsSectionRecord>,
    is_static: bool,
    s: int,
    e: int,
    v: usize,
)
    requires
        points_match_records(pts, recs, is_static),
        is_run(pts, s, e, v),
    ensures
        (v as int) < recs.len(),
        recs[v as int].is_static == is_static,
        recs[v as int].offset == s,
        recs[v as int].offset + recs[v as int].size == e,
{
    assert(pts.dom().contains(s as usize));
    let rec = recs[v as int];
    if rec.offset < s {
        let k = (s - 1) as usize;
        assert(recs[v as int].offset <= k < rec.offset + rec.size);
        assert(pts.dom().contains(k) && pts[k] == v);
    }
    assert(pts.dom().contains((e - 1) as usize));
    if e < rec.offset + rec.size {
        let k = e as usize;
        assert(recs[v as int].offset <= k < rec.offset + rec.size);
        assert(pts.dom().contains(k) && pts[k] == v);
    }
}

/// Writes the bytes of one part (static or dynamic) of the TLS area, from
/// offset `prev` on, section by section in ascending order; returns the end
/// offset of the last section written (or `prev` if there is none).
fn copy_tls_section_data(
    new_data: &mut Vec<u8>,
    ranges: &Vec<(usize, usize, usize)>,
    recs: &Vec<TlsSectionRecord>,
    section_data: &Vec<Vec<u8>>,
    prev: usize,
    Ghost(pts): Ghost<Map<usize, usize>>,
    Ghost(is_static): Ghost<bool>,
    Ghost(base): Ghost<int>,
    Ghost(bound): Ghost<int>,
) -> (end_prev: usize)
    requires
        prev <= bound,
        forall|k: usize| #[trigger] pts.dom().contains(k) ==> k < bound,
        are_runs(pts, ranges@),
        points_match_records(pts, recs@, is_static),
        forall|i: int|
            0 <= i < recs@.len() ==> (#[trigger] recs@[i]).size > 0 && (recs@[i].typ
                == SectionType::TlsData ==> i < section_data@.len() && section_data@[i]@.len()
                == recs@[i].size),
        forall|k: usize| #[trigger] pts.dom().contains(k) ==> prev <= k,
        old(new_data)@.len() == base + prev,
        base >= 0,
    ensures
        prev <= end_prev <= bound,
        final(new_data)@.len() == base + end_prev,
        final(new_data)@.subrange(0, base + prev) == old(new_data)@.subrange(0, base + prev),
        forall|p: int| prev <= p < end_prev ==> #[trigger] final(new_data)@[base + p] == area_byte(pts, recs@, section_data@, p),
        forall|k: usize| #[trigger] pts.dom().contains(k) ==> k < end_prev,
{
    let mut end_prev = prev;
    let mut i: usize = 0;
    proof {
        assert forall|j: int| 0 <= j < ranges@.len() implies end_prev <= (#[trigger] ranges@[j]).0 by {
            assert(is_run(pts, ranges@[j].0 as int, ranges@[j].1 as int, ranges@[j].2));
            assert(pts.dom().contains(ranges@[j].0));
        }
    }
    while i < ranges.len()
        invariant
            are_runs(pts, ranges@),
            points_match_records(pts, recs@, is_static),
            forall|i: int|
                0 <= i < recs@.len() ==> (#[trigger] recs@[i]).size > 0 && (recs@[i].typ
                    == SectionType::TlsData ==> i < section_data@.len() && section_data@[i]@.len()
                    == recs@[i].size),
            forall|k: usize| #[trigger] pts.dom().contains(k) ==> prev <= k,
            0 <= i <= ranges@.len(),
            prev <= end_prev <= bound,
            forall|k: usize| #[trigger] pts.dom().contains(k) ==> k < bound,
            new_data@.len() == base + end_prev,
            base >= 0,
            new_data@.subrange(0, base + prev) == old(new_data)@.subrange(0, base + prev),
            forall|p: int| prev <= p < end_prev ==> #[trigger] new_data@[base + p] == area_byte(pts, recs@, section_data@, p),
            forall|j: int| i <= j < ranges@.len() ==> end_prev <= (#[trigger] ranges@[j]).0,
            forall|k: usize| #[trigger] pts.dom().contains(k) && k < end_prev ==> exists|j: int|
                0 <= j < i && (#[trigger] ranges@[j]).0 <= k < ranges@[j].1,
            forall|j: int| 0 <= j < i ==> (#[trigger] ranges@[j]).1 <= end_prev,
        decreases ranges.len() - i,
    {
        let (start, end, id) = ranges[i];
        let ghost before = new_data@;
        proof {
            assert(is_run(pts, start as int, end as int, id));
            lemma_run_is_record(pts, recs@, is_static, start as int, end as int, id);
            assert(pts.dom().contains((end - 1) as usize));
        }
        assert((id as int) < recs@.len());
        let rec = recs[id];
        assert(rec == recs@[id as int]);
        // padding bytes up to the start of this section
        push_zeros(new_data, start - end_prev);
        let ghost padded = new_data@;
        if rec.typ == SectionType::TlsData {
            push_all(new_data, &section_data[id]);
        } else {
            push_zeros(new_data, rec.size);
        }
        proof {
            assert forall|p: int| prev <= p < end implies #[trigger] new_data@[base + p] == area_byte(pts, recs@, section_data@, p) by {
                if p < end_prev {
                    assert(new_data@[base + p] == before[base + p]);
                } else if p < start {
                    assert(new_data@[base + p] == padded[base + p]);
                    if pts.dom().contains(p as usize) {
                        let j = choose|j: int| 0 <= j < ranges@.len() && (#[trigger] ranges@[j]).0 <= (p as usize) < ranges@[j].1;
                        if j < i {
                        } else {
                            if j > i {
                                assert(ranges@[i as int].1 <= ranges@[j].0);
                            }
                        }
                    }
                } else {
                    assert(is_run(pts, start as int, end as int, id));
                    let pk = p as usize;
                    assert(start <= pk < end);
                    assert(pts.dom().contains(pk));
                    assert(pts[pk] == id);
                    if rec.typ == SectionType::TlsData {
                        assert(new_data@[base + p] == section_data@[id as int]@[p - start]);
                    }
                }
            }
            assert forall|k: usize| #[trigger] pts.dom().contains(k) && k < end implies exists|j: int|
                0 <= j < i + 1 && (#[trigger] ranges@[j]).0 <= k < ranges@[j].1 by {
                if k >= end_prev {
                    let j = choose|j: int| 0 <= j < ranges@.len() && (#[trigger] ranges@[j]).0 <= k < ranges@[j].1;
                    if j > i {
                        assert(ranges@[i as int].1 <= ranges@[j].0);
                    }
                    assert(j <= i);
                }
            }
            assert forall|j: int| i + 1 <= j < ranges@.len() implies end <= (#[trigger] ranges@[j]).0 by {
                assert(ranges@[i as int].1 <= ranges@[j].0);
            }
            assert(new_data@.subrange(0, base + prev) =~= old(new_data)@.subrange(0, base + prev)) by {
                assert(new_data@.subrange(0, base + prev) =~= before.subrange(0, base + prev));
            }
        }
        end_prev = end;
        i = i + 1;
    }
    proof {
        assert forall|k: usize| #[trigger] pts.dom().contains(k) implies k < end_prev by {
            let j = choose|j: int| 0 <= j < ranges@.len() && (#[trigger] ranges@[j]).0 <= k < ranges@[j].1;
        }
    }
    end_prev
}

/// The TLS area: the offsets of all static and dynamic TLS sections and the cached data image.
pub struct TlsInitializer {
    data_cache: Vec<u8>,
    cache_status: CacheStatus,
    static_section_offsets: RangeMap<usize, usize>,
    end_of_static_sections: usize,
    dynamic_section_offsets: RangeMap<usize, usize>,
    end_of_dynamic_sections: usize,
    sections: Vec<TlsSectionRecord>,
}

impl TlsInitializer {
    /// Static offsets covered, each mapped to the identifier of its section.
    pub closed spec fn static_points(&self) -> Map<usize, usize> {
        range_map_points(self.static_section_offsets)
    }

    /// Dynamic offsets covered, each mapped to the identifier of its section.
    pub closed spec fn dynamic_points(&self) -> Map<usize, usize> {
        range_map_points(self.dynamic_section_offsets)
    }

    /// The sections, indexed by identifier.
    pub closed spec fn records(&self) -> Seq<TlsSectionRecord> {
        self.sections@
    }

    /// The end (exclusive) of the last static section, where the TLS self pointer lies.
    pub closed spec fn end_static(&self) -> usize {
        self.end_of_static_sections
    }

    /// The end (exclusive) of the last dynamic section.
    pub closed spec fn end_dynamic(&self) -> usize {
        self.end_of_dynamic_sections
    }

    /// Whether the cached image is fresh.
    pub closed spec fn status(&self) -> CacheStatus {
        self.cache_status
    }

    /// The cached data image.
    pub closed spec fn cache(&self) -> Seq<u8> {
        self.data_cache@
    }

    /// The well-formedness of the TLS area.
    pub closed spec fn wf(&self) -> bool {
        let recs = self.sections@;
        &&& recs.len() < usize::MAX
        &&& forall|i: int|
            0 <= i < recs.len() ==> {
                &&& (#[trigger] recs[i]).size > 0
                &&& recs[i].offset + recs[i].size <= usize::MAX
                &&& (recs[i].typ == SectionType::TlsData || recs[i].typ == SectionType::TlsBss)
                &&& (recs[i].is_static ==> recs[i].offset + recs[i].size <= self.end_of_static_sections)
                &&& (!recs[i].is_static ==> POINTER_SIZE <= recs[i].offset && recs[i].offset
                    + recs[i].size <= self.end_of_dynamic_sections)
            }
        &&& points_match_records(range_map_points(self.static_section_offsets), recs, true)
        &&& points_match_records(range_map_points(self.dynamic_section_offsets), recs, false)
        &&& (self.end_of_dynamic_sections == 0 || POINTER_SIZE < self.end_of_dynamic_sections)
    }

    /// Creates an empty TLS area with no sections.
    pub fn empty() -> (r: TlsInitializer)
        ensures
            r.wf(),
            r.static_points().dom() == Set::<usize>::empty(),
            r.dynamic_points().dom() == Set::<usize>::empty(),
            r.records() == Seq::<TlsSectionRecord>::empty(),
            r.end_static() == 0,
            r.end_dynamic() == 0,
            r.status() == CacheStatus::Invalidated,
            r.cache() == Seq::<u8>::empty(),
    {
        TlsInitializer {
            data_cache: Vec::new(),
            cache_status: CacheStatus::Invalidated,
            static_section_offsets: range_map_new(),
            end_of_static_sections: 0,
            dynamic_section_offsets: range_map_new(),
            end_of_dynamic_sections: 0,
            sections: Vec::new(),
        }
    }

    /// Adds a TLS section whose offset was fixed by the linker of the base kernel image.
    ///
    /// Fails, changing nothing, if the range `offset..offset + size` would
    /// overlap a section already added, or if the section's address value
    /// is not a canonical virtual address. On success it returns the new section's
    /// identifier and its address value: minus its distance from the end of the
    /// `total_static_tls_size` bytes of static TLS data.
    pub fn add_existing_static_tls_section(
        &mut self,
        typ: SectionType,
        size: usize,
        offset: usize,
        total_static_tls_size: usize,
    ) -> (r: Result<(usize, usize), ()>)
        requires
            old(self).wf(),
            typ == SectionType::TlsData || typ == SectionType::TlsBss,
            size > 0,
            offset + size <= usize::MAX,
            offset <= total_static_tls_size,
            old(self).records().len() + 1 < usize::MAX,
        ensures
            final(self).wf(),
            r is Err <==> (covers_some(old(self).static_points(), offset as int, offset + size) || !is_canonical(
                static_tls_address(total_static_tls_size, offset),
            )),
            r is Err ==> *final(self) == *old(self),
            r matches Ok((id, vaddr)) ==> {
                &&& id == old(self).records().len()
                &&& vaddr == static_tls_address(total_static_tls_size, offset)
                &&& final(self).records() == old(self).records().push(
                    TlsSectionRecord { typ, size, offset, is_static: true, virt_addr: vaddr },
                )
                &&& final(self).static_points() == points_after_insert(
                    old(self).static_points(),
                    offset,
                    (offset + size) as usize,
                    id,
                )
                &&& final(self).dynamic_points() == old(self).dynamic_points()
                &&& final(self).end_static() == vstd::math::max(
                    old(self).end_static() as int,
                    offset + size,
                )
                &&& final(self).end_dynamic() == old(self).end_dynamic()
                &&& final(self).status() == CacheStatus::Invalidated
            },
    {
        let end = offset + size;
        if range_map_overlaps(&self.static_section_offsets, offset, end) {
            return Err(());
        }
        let distance = total_static_tls_size - offset;
        // the two's-complement negation of `distance`
        let vaddr: usize = if distance == 0 { 0 } else { usize::MAX - distance + 1 };
        if virtual_address(vaddr).is_err() {
            return Err(());
        }
        let id = self.sections.len();
        let ghost old_pts = range_map_points(self.static_section_offsets);
        let ghost old_recs = self.sections@;
        let rec = TlsSectionRecord { typ, size, offset, is_static: true, virt_addr: vaddr };
        self.sections.push(rec);
        if end > self.end_of_static_sections {
            self.end_of_static_sections = end;
        }
        range_map_insert(&mut self.static_section_offsets, offset, end, id);
        self.cache_status = CacheStatus::Invalidated;
        proof {
            let pts = range_map_points(self.static_section_offsets);
            let recs = self.sections@;
            assert(recs[id as int] == rec);
            assert forall|k: usize| #[trigger] pts.dom().contains(k) implies {
                &&& (pts[k] as int) < recs.len()
                &&& recs[pts[k] as int].is_static == true
                &&& recs[pts[k] as int].offset <= k < recs[pts[k] as int].offset + recs[pts[k] as int].size
            } by {
                if !(offset <= k && k < end) {
                    assert(old_pts.dom().contains(k));
                    assert(recs[pts[k] as int] == old_recs[pts[k] as int]);
                }
            }
            assert forall|i: int, k: usize|
                0 <= i < recs.len() && (#[trigger] recs[i]).is_static == true && recs[i].offset <= k
                    < recs[i].offset + recs[i].size implies #[trigger] pts.dom().contains(k) && pts[k] == i by {
                if i < old_recs.len() {
                    assert(recs[i] == old_recs[i]);
                    assert(points_match_records(old_pts, old_recs, true));
                    assert(old_recs[i].is_static == true && old_recs[i].offset <= k < old_recs[i].offset + old_recs[i].size);
                    assert(old_pts.dom().contains(k));
                    assert(old_pts[k] == i);
                    if offset <= k && k < end {
                        // no old section lies in the new range
                        assert(old_pts.dom().contains(k));
                        assert(covers_some(old_pts, offset as int, end as int));
                        assert(false);
                    }
                }
            }
            assert(points_match_records(pts, recs, true));
            assert forall|k: usize| #[trigger]
                range_map_points(self.dynamic_section_offsets).dom().contains(k) implies
                recs[range_map_points(self.dynamic_section_offsets)[k] as int] == old_recs[range_map_points(self.dynamic_section_offsets)[k] as int] by {}
            assert(points_match_records(range_map_points(self.dynamic_section_offsets), recs, false));
        }
        Ok((id, vaddr))
    }

    /// Finds the first offset after the TLS self pointer's slot where a dynamic
    /// section of `size` bytes aligned to `alignment` fits; it is the least
    /// such offset. Returns `None` if no offset below `usize::MAX` fits.
    pub fn find_dynamic_slot(&self, size: usize, alignment: usize) -> (r: Option<usize>)
        requires
            self.wf(),
            size > 0,
            alignment > 0,
        ensures
            r matches Some(start) ==> {
                &&& dynamic_slot_fits(self.dynamic_points(), start as int, size as int, alignment as int)
                &&& forall|x: int|
                    x < start ==> !#[trigger] dynamic_slot_fits(self.dynamic_points(), x, size as int, alignment as int)
            },
            r is None ==> forall|x: int|
                !#[trigger] dynamic_slot_fits(self.dynamic_points(), x, size as int, alignment as int),
    {
        let ghost pts = self.dynamic_points();
        let gaps = range_map_gaps(&self.dynamic_section_offsets, POINTER_SIZE, usize::MAX);
        let mut i: usize = 0;
        while i < gaps.len()
            invariant
                pts == self.dynamic_points(),
                size > 0,
                alignment > 0,
                are_gaps(pts, POINTER_SIZE as int, usize::MAX as int, gaps@),
                0 <= i <= gaps.len(),
                forall|x: int, j: int|
                    #![trigger gaps@[j], dynamic_slot_fits(pts, x, size as int, alignment as int)]
                    0 <= j < i && dynamic_slot_fits(pts, x, size as int, alignment as int) ==> !(gaps@[j].0
                        <= x < gaps@[j].1),
            decreases gaps.len() - i,
        {
            let (gap_start, gap_end) = gaps[i];
            proof {
                assert(is_gap(pts, POINTER_SIZE as int, usize::MAX as int, gap_start as int, gap_end as int));
                lemma_align_up(gap_start as int, alignment as int);
            }
            let aligned = checked_align_up(gap_start, alignment);
            if let Some(start) = aligned {
                if let Some(end) = start.checked_add(size) {
                    if end <= gap_end {
                        proof {
                            assert forall|k: usize| start <= k < start + size implies !#[trigger] pts.dom().contains(k) by {
                                assert(gap_start <= k < gap_end);
                            }
                            assert(dynamic_slot_fits(pts, start as int, size as int, alignment as int));
                            assert forall|x: int| x < start implies !#[trigger] dynamic_slot_fits(pts, x, size as int, alignment as int) by {
                                if dynamic_slot_fits(pts, x, size as int, alignment as int) {
                                    assert(!pts.dom().contains(x as usize));
                                    let j = choose|j: int| 0 <= j < gaps@.len() && (#[trigger] gaps@[j]).0 <= (x as usize) < gaps@[j].1;
                                    if j < i {
                                    } else if j == i {
                                        lemma_fit_within_gap(pts, x, size as int, alignment as int, gap_start as int, gap_end as int);
                                    } else {
                                        assert(gaps@[i as int].1 < gaps@[j].0);
                                    }
                                }
                            }
                        }
                        return Some(start);
                    }
                }
            }
            proof {
                assert forall|x: int, j: int|
                    #![trigger gaps@[j], dynamic_slot_fits(pts, x, size as int, alignment as int)]
                    0 <= j < i + 1 && dynamic_slot_fits(pts, x, size as int, alignment as int) implies !(gaps@[j].0
                        <= x < gaps@[j].1) by {
                    if j == i && gaps@[j].0 <= x < gaps@[j].1 {
                        lemma_fit_within_gap(pts, x, size as int, alignment as int, gap_start as int, gap_end as int);
                    }
                }
            }
            i = i + 1;
        }
        proof {
            assert forall|x: int| !#[trigger] dynamic_slot_fits(pts, x, size as int, alignment as int) by {
                if dynamic_slot_fits(pts, x, size as int, alignment as int) {
                    assert(!pts.dom().contains(x as usize));
                    let j = choose|j: int| 0 <= j < gaps@.len() && (#[trigger] gaps@[j]).0 <= (x as usize) < gaps@[j].1;
                }
            }
        }
        None
    }

    /// Adds a dynamically-loaded TLS section at the free offset `start`
    /// (for instance one that `find_dynamic_slot` returned); returns its identifier.
    pub fn insert_dynamic_tls_section(&mut self, typ: SectionType, size: usize, start: usize) -> (id: usize)
        requires
            old(self).wf(),
            typ == SectionType::TlsData || typ == SectionType::TlsBss,
            size > 0,
            dynamic_slot_fits(old(self).dynamic_points(), start as int, size as int, 1),
            old(self).records().len() + 1 < usize::MAX,
        ensures
            final(self).wf(),
            id == old(self).records().len(),
            final(self).records() == old(self).records().push(
                TlsSectionRecord { typ, size, offset: start, is_static: false, virt_addr: start },
            ),
            final(self).dynamic_points() == points_after_insert(
                old(self).dynamic_points(),
                start,
                (start + size) as usize,
                id,
            ),
            final(self).static_points() == old(self).static_points(),
            final(self).end_dynamic() == vstd::math::max(old(self).end_dynamic() as int, start + size),
            final(self).end_static() == old(self).end_static(),
            final(self).status() == CacheStatus::Invalidated,
    {
        let end = start + size;
        let id = self.sections.len();
        let ghost old_pts = range_map_points(self.dynamic_section_offsets);
        let ghost old_recs = self.sections@;
        let rec = TlsSectionRecord { typ, size, offset: start, is_static: false, virt_addr: start };
        self.sections.push(rec);
        if end > self.end_of_dynamic_sections {
            self.end_of_dynamic_sections = end;
        }
        range_map_insert(&mut self.dynamic_section_offsets, start, end, id);
        self.cache_status = CacheStatus::Invalidated;
        proof {
            let pts = range_map_points(self.dynamic_section_offsets);
            let recs = self.sections@;
            assert(recs[id as int] == rec);
            assert forall|k: usize| #[trigger] pts.dom().contains(k) implies {
                &&& (pts[k] as int) < recs.len()
                &&& recs[pts[k] as int].is_static == false
                &&& recs[pts[k] as int].offset <= k < recs[pts[k] as int].offset + recs[pts[k] as int].size
            } by {
                if !(start <= k && k < end) {
                    assert(old_pts.dom().contains(k));
                    assert(recs[pts[k] as int] == old_recs[pts[k] as int]);
                }
            }
            assert forall|i: int, k: usize|
                0 <= i < recs.len() && (#[trigger] recs[i]).is_static == false && recs[i].offset <= k
                    < recs[i].offset + recs[i].size implies #[trigger] pts.dom().contains(k) && pts[k] == i by {
                if i < old_recs.len() {
                    assert(recs[i] == old_recs[i]);
                    assert(old_pts.dom().contains(k));
                    assert(old_pts[k] == i);
                    if start <= k && k < end {
                        assert(!old(self).dynamic_points().dom().contains(k));
                        assert(false);
                    }
                }
            }
            assert(points_match_records(pts, recs, false));
            assert forall|k: usize| #[trigger]
                range_map_points(self.static_section_offsets).dom().contains(k) implies
                recs[range_map_points(self.static_section_offsets)[k] as int] == old_recs[range_map_points(self.static_section_offsets)[k] as int] by {}
            assert(points_match_records(range_map_points(self.static_section_offsets), recs, true));
        }
        id
    }

    /// Inserts a dynamically-loaded TLS section at the first offset after the
    /// TLS self pointer's slot where it fits with the given alignment.
    /// Returns that offset (which is also the section's address value) and the
    /// section's identifier, or an error, changing nothing, if no offset fits.
    pub fn add_new_dynamic_tls_section(&mut self, typ: SectionType, size: usize, alignment: usize) -> (r:
        Result<(usize, usize), ()>)
        requires
            old(self).wf(),
            typ == SectionType::TlsData || typ == SectionType::TlsBss,
            size > 0,
            alignment > 0,
            old(self).records().len() + 1 < usize::MAX,
        ensures
            final(self).wf(),
            (forall|x: int| !#[trigger] dynamic_slot_fits(old(self).dynamic_points(), x, size as int, alignment as int))
                ==> r is Err,
            forall|s: usize|
                #[trigger] dynamic_slot_fits(old(self).dynamic_points(), s as int, size as int, alignment as int) && (
                forall|x: int| x < s ==> !#[trigger] dynamic_slot_fits(old(self).dynamic_points(), x, size as int, alignment as int))
                    ==> (r is Err <==> !is_canonical(s)),
            r is Err ==> *final(self) == *old(self),
            r matches Ok((start, id)) ==> {
                &&& is_canonical(start)
                &&& dynamic_slot_fits(old(self).dynamic_points(), start as int, size as int, alignment as int)
                &&& forall|x: int|
                    x < start ==> !#[trigger] dynamic_slot_fits(old(self).dynamic_points(), x, size as int, alignment as int)
                &&& id == old(self).records().len()
                &&& final(self).records() == old(self).records().push(
                    TlsSectionRecord { typ, size, offset: start, is_static: false, virt_addr: start },
                )
                &&& final(self).dynamic_points() == points_after_insert(
                    old(self).dynamic_points(),
                    start,
                    (start + size) as usize,
                    id,
                )
                &&& final(self).static_points() == old(self).static_points()
                &&& final(self).end_dynamic() == vstd::math::max(old(self).end_dynamic() as int, start + size)
                &&& final(self).end_static() == old(self).end_static()
                &&& final(self).status() == CacheStatus::Invalidated
            },
    {
        match self.find_dynamic_slot(size, alignment) {
            None => Err(()),
            Some(start) => {
                if virtual_address(start).is_err() {
                    return Err(());
                }
                proof {
                    assert forall|k: usize| start <= k < start + size implies !#[trigger] self.dynamic_points().dom().contains(k) by {
                        assert(dynamic_slot_fits(self.dynamic_points(), start as int, size as int, alignment as int));
                    }
                }
                let id = self.insert_dynamic_tls_section(typ, size, start);
                Ok((start, id))
            },
        }
    }

    /// Marks the cached data image as out of date, e.g. after a TLS section's
    /// data was changed by a relocation.
    pub fn invalidate(&mut self)
        ensures
            final(self).status() == CacheStatus::Invalidated,
            final(self).cache() == old(self).cache(),
            final(self).records() == old(self).records(),
            final(self).static_points() == old(self).static_points(),
            final(self).dynamic_points() == old(self).dynamic_points(),
            final(self).end_static() == old(self).end_static(),
            final(self).end_dynamic() == old(self).end_dynamic(),
            old(self).wf() ==> final(self).wf(),
    {
        self.cache_status = CacheStatus::Invalidated;
    }

    /// Returns a copy of the TLS data image and the offset of the TLS self
    /// pointer's slot in it, regenerating the cached image first if it was
    /// invalidated; `section_data[id]` holds the current contents of each
    /// `.tdata` section. Returns `None`, changing nothing, if the area holds no section data.
    /// The caller writes the address of the copy's slot into that slot.
    pub fn get_data(&mut self, section_data: &Vec<Vec<u8>>) -> (r: Option<(Vec<u8>, usize)>)
        requires
            old(self).wf(),
            forall|i: int|
                0 <= i < old(self).records().len() && (#[trigger] old(self).records()[i]).typ
                    == SectionType::TlsData ==> i < section_data@.len() && section_data@[i]@.len()
                    == old(self).records()[i].size,
            old(self).end_static() + old(self).end_dynamic() + POINTER_SIZE <= usize::MAX,
        ensures
            final(self).wf(),
            final(self).records() == old(self).records(),
            final(self).static_points() == old(self).static_points(),
            final(self).dynamic_points() == old(self).dynamic_points(),
            final(self).end_static() == old(self).end_static(),
            final(self).end_dynamic() == old(self).end_dynamic(),
            old(self).end_static() + old(self).end_dynamic() == 0 ==> r is None && *final(self) == *old(self),
            old(self).end_static() + old(self).end_dynamic() != 0 ==> {
                let image = if old(self).status() == CacheStatus::Fresh {
                    old(self).cache()
                } else {
                    tls_image_of(
                        old(self).static_points(),
                        old(self).dynamic_points(),
                        old(self).records(),
                        old(self).end_static() as int,
                        old(self).end_dynamic() as int,
                        section_data@,
                    )
                };
                &&& r matches Some((data, ptr_offset)) && data@ == image && ptr_offset == old(self).end_static()
                &&& final(self).status() == CacheStatus::Fresh
                &&& final(self).cache() == image
            },
    {
        let total = self.end_of_static_sections + self.end_of_dynamic_sections;
        if total == 0 {
            return None;
        }
        if self.cache_status == CacheStatus::Invalidated {
            let ghost st_pts = range_map_points(self.static_section_offsets);
            let ghost dy_pts = range_map_points(self.dynamic_section_offsets);
            let ghost recs = self.sections@;
            let end_static = self.end_of_static_sections;
            let end_dynamic = self.end_of_dynamic_sections;
            proof {
                assert forall|k: usize| #[trigger] st_pts.dom().contains(k) implies 0 <= k && k < end_static by {
                    assert(recs[st_pts[k] as int].size > 0);
                }
                assert forall|k: usize| #[trigger] dy_pts.dom().contains(k) implies POINTER_SIZE <= k && k < vstd::math::max(POINTER_SIZE as int, end_dynamic as int) by {
                    assert(recs[dy_pts[k] as int].size > 0);
                }
            }
            proof {
                assert forall|i: int|
                    0 <= i < recs.len() implies (#[trigger] recs[i]).size > 0 && (recs[i].typ
                        == SectionType::TlsData ==> i < section_data@.len() && section_data@[i]@.len()
                        == recs[i].size) by {
                    assert(old(self).records()[i] == recs[i]);
                }
            }
            let mut new_data: Vec<u8> = Vec::new();
            let static_ranges = range_map_ranges(&self.static_section_offsets);
            let end_prev = copy_tls_section_data(
                &mut new_data,
                &static_ranges,
                &self.sections,
                section_data,
                0,
                Ghost(st_pts),
                Ghost(true),
                Ghost(0),
                Ghost(end_static as int),
            );
            let ghost after_static = new_data@;
            push_zeros(&mut new_data, end_static - end_prev);
            let ghost padded_static = new_data@;
            push_zeros(&mut new_data, POINTER_SIZE);
            let ghost with_pointer = new_data@;
            let dynamic_end: usize = if end_dynamic > POINTER_SIZE { end_dynamic } else { POINTER_SIZE };
            let dynamic_ranges = range_map_ranges(&self.dynamic_section_offsets);
            let end_prev2 = copy_tls_section_data(
                &mut new_data,
                &dynamic_ranges,
                &self.sections,
                section_data,
                POINTER_SIZE,
                Ghost(dy_pts),
                Ghost(false),
                Ghost(end_static as int),
                Ghost(dynamic_end as int),
            );
            let ghost after_dynamic = new_data@;
            push_zeros(&mut new_data, dynamic_end - end_prev2);
            proof {
                let img = tls_image_of(st_pts, dy_pts, recs, end_static as int, end_dynamic as int, section_data@);
                assert(new_data@.len() == img.len());
                assert forall|p: int| 0 <= p < end_static + POINTER_SIZE implies #[trigger] after_dynamic[p] == with_pointer[p] by {
                    assert(after_dynamic.subrange(0, end_static + POINTER_SIZE)[p] == with_pointer.subrange(0, end_static + POINTER_SIZE)[p]);
                }
                assert forall|p: int| 0 <= p < img.len() implies new_data@[p] == img[p] by {
                    if p < end_prev {
                        assert(after_static[0 + p] == area_byte(st_pts, recs, section_data@, p));
                        assert(padded_static[p] == after_static[p]);
                        assert(with_pointer[p] == padded_static[p]);
                        assert(after_dynamic[p] == with_pointer[p]);
                        assert(new_data@[p] == after_static[p]);
                    } else if p < end_static {
                        assert(with_pointer[p] == padded_static[p]);
                        assert(after_dynamic[p] == with_pointer[p]);
                        assert(new_data@[p] == padded_static[p]);
                        if st_pts.dom().contains(p as usize) {
                            assert((p as usize) < end_prev);
                        }
                    } else if p < end_static + POINTER_SIZE {
                        assert(after_dynamic[p] == with_pointer[p]);
                        assert(new_data@[p] == with_pointer[p]);
                    } else if p < end_static + end_prev2 {
                        let q = p - end_static;
                        assert(after_dynamic[end_static + q] == area_byte(dy_pts, recs, section_data@, q));
                        assert(new_data@[p] == after_dynamic[p]);
                    } else {
                        let q = p - end_static;
                        if dy_pts.dom().contains(q as usize) {
                            assert((q as usize) < end_prev2);
                        }
                    }
                }
                assert(new_data@ =~= img);
            }
            self.data_cache = new_data;
            self.cache_status = CacheStatus::Fresh;
        }
        let mut data_copy: Vec<u8> = Vec::new();
        push_all(&mut data_copy, &self.data_cache);
        assert(data_copy@ =~= self.data_cache@);
        Some((data_copy, self.end_of_static_sections))
    }

    /// The end (exclusive) of the last static TLS section: the offset of the TLS self pointer.
    pub fn end_of_static_sections(&self) -> (r: usize)
        ensures
            r == self.end_static(),
    {
        self.end_of_static_sections
    }

    /// The end (exclusive) of the last dynamic TLS section, counted from the TLS self pointer.
    pub fn end_of_dynamic_sections(&self) -> (r: usize)
        ensures
            r == self.end_dynamic(),
    {
        self.end_of_dynamic_sections
    }

    /// The number of TLS sections added so far.
    pub fn num_sections(&self) -> (r: usize)
        ensures
            r == self.records().len(),
    {
        self.sections.len()
    }

    /// The section with identifier `id`.
    pub fn section(&self, id: usize) -> (r: TlsSectionRecord)
        requires
            id < self.records().len(),
        ensures
            r == self.records()[id as int],
    {
        self.sections[id]
    }

    /// Whether the cached data image is fresh.
    pub fn is_cache_fresh(&self) -> (r: bool)
        ensures
            r == (self.status() == CacheStatus::Fresh),
    {
        self.cache_status == CacheStatus::Fresh
    }
}

/// No two TLS sections of the same part (static or dynamic) overlap, and every
/// dynamic section lies after the TLS self pointer's slot.
pub proof fn law_tls_sections_disjoint(t: &TlsInitializer, i: int, j: int)
    requires
        t.wf(),
        0 <= i < t.records().len(),
        0 <= j < t.records().len(),
        i != j,
        t.records()[i].is_static == t.records()[j].is_static,
    ensures
        t.records()[i].offset + t.records()[i].size <= t.records()[j].offset || t.records()[j].offset
            + t.records()[j].size <= t.records()[i].offset,
        !t.records()[i].is_static ==> POINTER_SIZE <= t.records()[i].offset,
{
    let ri = t.records()[i];
    let rj = t.records()[j];
    let pts = if ri.is_static { t.static_points() } else { t.dynamic_points() };
    assert(points_match_records(pts, t.records(), ri.is_static));
    if !(ri.offset + ri.size <= rj.offset || rj.offset + rj.size <= ri.offset) {
        let k: usize = if ri.offset <= rj.offset { rj.offset } else { ri.offset };
        assert(t.records()[i].offset <= k < t.records()[i].offset + t.records()[i].size);
        assert(t.records()[j].offset <= k < t.records()[j].offset + t.records()[j].size);
        assert(pts.dom().contains(k));
        assert(pts[k] == i);
        assert(pts[k] == j);
    }
}

} // verus!
