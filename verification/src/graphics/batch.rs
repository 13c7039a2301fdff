//! Shape breakdowns and their batching.
//!
//! A drawable shape breaks down into vertices, 16-bit indices into those
//! vertices, and optionally the scene texture it is drawn with. Before a
//! frame is drawn, the breakdowns of all shapes are merged into one
//! vertex run and one index run: the vertices are concatenated, each
//! breakdown's indices are shifted by the number of vertices before it,
//! and — for textured shapes — a [`Group`] records which contiguous index
//! range is drawn with which texture.

use vstd::prelude::*;
use crate::graphics::texture::Texture;

verus! {

/// The breakdown of one shape: its vertices as native vertex bytes, the
/// number of vertices those bytes hold, the indices into them, and the
/// texture it is drawn with, if any.
#[derive(Debug, Clone)]
pub struct Breakdown {
    /// The shape's vertices, as native vertex bytes.
    pub vertices: Vec<u8>,
    /// How many vertices the bytes hold.
    pub vertex_count: usize,
    /// Indices into the shape's own vertices.
    pub indicies: Vec<u16>,
    /// The texture the shape is drawn with, if any.
    pub texture: Option<Texture>,
}

impl Breakdown {
    /// Every index points at one of the shape's own vertices.
    pub open spec fn well_formed(self) -> bool {
        forall|k: int| 0 <= k < self.indicies@.len() ==> #[trigger] self.indicies@[k]
            < self.vertex_count
    }

    /// Append this breakdown to a list of breakdowns.
    pub fn append(self, vec: &mut Vec<Breakdown>)
        ensures
            final(vec)@ == old(vec)@.push(self),
    {
        vec.push(self);
    }
}

/// Which texture a contiguous range of merged indices is drawn with.
#[derive(Debug, Clone, Copy, PartialEq, Eq, Structural)]
pub struct Group {
    /// First index of the range.
    pub start: u32,
    /// One past the last index of the range.
    pub end: u32,
    /// Id of the texture the range is drawn with.
    pub tex_id: u64,
}

/// The data a scene hands a built-in pipeline for one frame: the
/// breakdowns of the shapes to draw, and the world-to-screen transform
/// as the native bytes of a 4-by-4 float matrix.
#[derive(Debug, Clone)]
pub struct RenderInformation {
    /// The breakdowns of the shapes to draw.
    pub shapes: Vec<Breakdown>,
    /// The transform, as 64 native matrix bytes.
    pub transform: Vec<u8>,
}

/// A run of breakdowns that a merge accepts: every breakdown is
/// well-formed, and the totals fit the index types of the merged run.
pub open spec fn breakdowns_valid(items: Seq<Breakdown>) -> bool {
    &&& total_vertex_count(items) <= u16::MAX
    &&& total_index_count(items) <= u32::MAX
    &&& cat_vertices(items).len() <= usize::MAX
    &&& forall|i: int| 0 <= i < items.len() ==> (#[trigger] items[i]).well_formed()
}

/// The vertex bytes of a run of breakdowns, concatenated in order.
pub open spec fn cat_vertices(items: Seq<Breakdown>) -> Seq<u8>
    decreases items.len(),
{
    if items.len() == 0 {
        Seq::empty()
    } else {
        cat_vertices(items.drop_last()) + items.last().vertices@
    }
}

/// The total vertex count of a run of breakdowns.
pub open spec fn total_vertex_count(items: Seq<Breakdown>) -> int
    decreases items.len(),
{
    if items.len() == 0 {
        0
    } else {
        total_vertex_count(items.drop_last()) + items.last().vertex_count
    }
}

/// The total index count of a run of breakdowns.
pub open spec fn total_index_count(items: Seq<Breakdown>) -> int
    decreases items.len(),
{
    if items.len() == 0 {
        0
    } else {
        total_index_count(items.drop_last()) + items.last().indicies@.len()
    }
}

/// The merged indices of a run of breakdowns: each breakdown's indices
/// shifted up by the number of vertices before it, concatenated in
/// order.
pub open spec fn cat_indices(items: Seq<Breakdown>) -> Seq<u16>
    decreases items.len(),
{
    if items.len() == 0 {
        Seq::empty()
    } else {
        cat_indices(items.drop_last()) + items.last().indicies@.map_values(
            |x: u16| (x + total_vertex_count(items.drop_last())) as u16,
        )
    }
}

/// The texture groups of a run of breakdowns: one per breakdown, in
/// order, each covering exactly its breakdown's index range within the
/// merged run.
pub open spec fn cat_groups(items: Seq<Breakdown>) -> Seq<Group>
    decreases items.len(),
{
    if items.len() == 0 {
        Seq::empty()
    } else {
        cat_groups(items.drop_last()).push(
            Group {
                start: total_index_count(items.drop_last()) as u32,
                end: total_index_count(items) as u32,
                tex_id: items.last().texture->Some_0.id,
            },
        )
    }
}

/// Vertex and index counts of a run of breakdowns are sums of
/// non-negative parts: both are non-negative, and the counts of a prefix
/// never exceed the counts of the whole.
pub proof fn lemma_counts_nonneg(items: Seq<Breakdown>)
    ensures
        total_vertex_count(items) >= 0,
        total_index_count(items) >= 0,
        cat_vertices(items).len() >= 0,
    decreases items.len(),
{
    if items.len() > 0 {
        lemma_counts_nonneg(items.drop_last());
    }
}

/// A prefix of a run counts no more vertices and indices than the whole
/// run.
pub proof fn lemma_counts_monotonic(items: Seq<Breakdown>, i: int)
    requires
        0 <= i <= items.len(),
    ensures
        total_vertex_count(items.take(i)) <= total_vertex_count(items),
        total_index_count(items.take(i)) <= total_index_count(items),
    decreases items.len() - i,
{
    if i < items.len() {
        assert(items.take(i + 1).drop_last() =~= items.take(i));
        lemma_counts_monotonic(items, i + 1);
        if i + 1 == items.len() {
            assert(items.take(i + 1) =~= items);
        }
    } else {
        assert(items.take(i) =~= items);
    }
}

/// The merged run holds one shifted index per index of the parts, and
/// one group per part.
pub proof fn lemma_cat_lengths(items: Seq<Breakdown>)
    ensures
        cat_indices(items).len() == total_index_count(items),
        cat_groups(items).len() == items.len(),
        cat_vertices(items).len() >= 0,
    decreases items.len(),
{
    if items.len() > 0 {
        lemma_cat_lengths(items.drop_last());
    }
}

/// The range of one texture group: group `i` of a merged run starts at
/// the total index count of the breakdowns before its own and ends at
/// the total index count including it.
pub proof fn lemma_group_ranges(items: Seq<Breakdown>, i: int)
    requires
        0 <= i < items.len(),
        total_index_count(items) <= u32::MAX,
    ensures
        cat_groups(items)[i].start == total_index_count(items.take(i)),
        cat_groups(items)[i].end == total_index_count(items.take(i + 1)),
    decreases items.len(),
{
    lemma_cat_lengths(items);
    lemma_cat_lengths(items.drop_last());
    lemma_counts_nonneg(items.drop_last());
    lemma_counts_monotonic(items, i);
    lemma_counts_monotonic(items, i + 1);
    lemma_counts_nonneg(items.take(i));
    lemma_counts_nonneg(items.take(i + 1));
    if i == items.len() - 1 {
        assert(items.take(i) =~= items.drop_last());
        assert(items.take(i + 1) =~= items);
    } else {
        assert(items.take(i) =~= items.drop_last().take(i));
        assert(items.take(i + 1) =~= items.drop_last().take(i + 1));
        lemma_group_ranges(items.drop_last(), i);
    }
}

/// The texture groups of a merged run tile its indices exactly: the
/// first group starts at 0, each group ends where the next begins, and
/// the last group ends at the total index count, so every merged index
/// belongs to exactly one group.
pub proof fn lemma_groups_tile(items: Seq<Breakdown>)
    requires
        total_index_count(items) <= u32::MAX,
    ensures
        cat_groups(items).len() == items.len(),
        items.len() > 0 ==> cat_groups(items)[0].start == 0,
        forall|i: int| 0 <= i < items.len() - 1 ==> #[trigger] cat_groups(items)[i].end
            == cat_groups(items)[i + 1].start,
        items.len() > 0 ==> cat_groups(items)[items.len() - 1].end == total_index_count(items),
{
    lemma_cat_lengths(items);
    if items.len() > 0 {
        lemma_group_ranges(items, 0);
        assert(items.take(0) =~= Seq::<Breakdown>::empty());
        lemma_group_ranges(items, items.len() - 1);
        assert(items.take(items.len() as int) =~= items);
    }
    assert forall|i: int| 0 <= i < items.len() - 1 implies #[trigger] cat_groups(items)[i].end
        == cat_groups(items)[i + 1].start by {
        lemma_group_ranges(items, i);
        lemma_group_ranges(items, i + 1);
    }
}

/// A merged run stays in bounds: when every breakdown is well-formed
/// and the total vertex count fits the index type, every merged index
/// points at one of the merged run's own vertices.
pub proof fn lemma_merged_indices_in_bounds(items: Seq<Breakdown>)
    requires
        total_vertex_count(items) <= u16::MAX,
        forall|i: int| 0 <= i < items.len() ==> (#[trigger] items[i]).well_formed(),
    ensures
        forall|k: int| 0 <= k < cat_indices(items).len() ==> #[trigger] cat_indices(items)[k]
            < total_vertex_count(items),
    decreases items.len(),
{
    if items.len() > 0 {
        let rest = items.drop_last();
        let last = items.last();
        lemma_counts_nonneg(rest);
        assert(forall|i: int| 0 <= i < rest.len() ==> (#[trigger] rest[i]).well_formed());
        lemma_merged_indices_in_bounds(rest);
        let shifted = last.indicies@.map_values(
            |x: u16| (x + total_vertex_count(rest)) as u16,
        );
        assert(items[items.len() - 1].well_formed());
        assert forall|k: int| 0 <= k < cat_indices(items).len() implies #[trigger] cat_indices(
            items,
        )[k] < total_vertex_count(items) by {
            if k < cat_indices(rest).len() {
                assert(cat_indices(items)[k] == cat_indices(rest)[k]);
            } else {
                let j = k - cat_indices(rest).len();
                assert(cat_indices(items)[k] == shifted[j]);
                assert(last.indicies@[j] < last.vertex_count);
            }
        }
    }
}

/// Merge the breakdowns of untextured shapes: concatenate the vertex
/// bytes, and shift each breakdown's indices by the number of vertices
/// before it.
pub fn merge_breakdowns(items: &Vec<Breakdown>) -> (r: (Vec<u8>, Vec<u16>))
    requires
        total_vertex_count(items@) <= u16::MAX,
        total_index_count(items@) <= usize::MAX,
        cat_vertices(items@).len() <= usize::MAX,
        forall|i: int| 0 <= i < items@.len() ==> (#[trigger] items@[i]).well_formed(),
    ensures
        r.0@ == cat_vertices(items@),
        r.1@ == cat_indices(items@),
{
    let mut vertices: Vec<u8> = Vec::new();
    let mut indices: Vec<u16> = Vec::new();
    let mut start: usize = 0;
    let n = items.len();
    let mut i: usize = 0;
    while i < n
        invariant
            n == items@.len(),
            0 <= i <= n,
            total_vertex_count(items@) <= u16::MAX,
            total_index_count(items@) <= usize::MAX,
            cat_vertices(items@).len() <= usize::MAX,
            forall|k: int| 0 <= k < items@.len() ==> (#[trigger] items@[k]).well_formed(),
            start == total_vertex_count(items@.take(i as int)),
            vertices@ == cat_vertices(items@.take(i as int)),
            indices@ == cat_indices(items@.take(i as int)),
            indices@.len() == total_index_count(items@.take(i as int)),
        decreases n - i,
    {
        proof {
            assert(items@.take(i + 1).drop_last() =~= items@.take(i as int));
            assert(items@.take(i + 1).last() == items@[i as int]);
            lemma_counts_monotonic(items@, i as int);
            lemma_counts_monotonic(items@, i + 1);
            lemma_counts_nonneg(items@.take(i as int));
            lemma_cat_lengths(items@.take(i as int));
            lemma_cat_lengths(items@.take(i + 1));
            lemma_cat_lengths(items@);
            lemma_vertices_prefix(items@, i + 1);
            lemma_vertices_prefix(items@, i as int);
        }
        let item = &items[i];
        proof {
            assert forall|k: int| 0 <= k < item.indicies@.len() implies item.indicies@[k] + (
            start as u16) <= u16::MAX by {
                assert(items@[i as int].well_formed());
            }
        }
        append_slice(&mut vertices, item.vertices.as_slice());
        append_shifted(&mut indices, item.indicies.as_slice(), start as u16);
        proof {
            assert(vertices@ =~= cat_vertices(items@.take(i + 1)));
            assert(indices@ =~= cat_indices(items@.take(i + 1)));
        }
        start = start + item.vertex_count;
        i = i + 1;
    }
    proof {
        assert(items@.take(n as int) =~= items@);
    }
    (vertices, indices)
}

/// Merge the breakdowns of textured shapes: concatenate the vertex
/// bytes, shift each breakdown's indices by the number of vertices
/// before it, and record one texture group per breakdown, covering its
/// index range. Every breakdown must carry a texture.
pub fn merge_textured_breakdowns(items: &Vec<Breakdown>) -> (r: (Vec<u8>, Vec<u16>, Vec<Group>))
    requires
        total_vertex_count(items@) <= u16::MAX,
        total_index_count(items@) <= u32::MAX,
        cat_vertices(items@).len() <= usize::MAX,
        forall|i: int| 0 <= i < items@.len() ==> (#[trigger] items@[i]).texture is Some,
        forall|i: int| 0 <= i < items@.len() ==> (#[trigger] items@[i]).well_formed(),
    ensures
        r.0@ == cat_vertices(items@),
        r.1@ == cat_indices(items@),
        r.2@ == cat_groups(items@),
{
    let mut vertices: Vec<u8> = Vec::new();
    let mut indices: Vec<u16> = Vec::new();
    let mut groups: Vec<Group> = Vec::new();
    let mut start: usize = 0;
    let n = items.len();
    let mut i: usize = 0;
    while i < n
        invariant
            n == items@.len(),
            0 <= i <= n,
            total_vertex_count(items@) <= u16::MAX,
            total_index_count(items@) <= u32::MAX,
            cat_vertices(items@).len() <= usize::MAX,
            forall|k: int| 0 <= k < items@.len() ==> (#[trigger] items@[k]).texture is Some,
            forall|k: int| 0 <= k < items@.len() ==> (#[trigger] items@[k]).well_formed(),
            start == total_vertex_count(items@.take(i as int)),
            vertices@ == cat_vertices(items@.take(i as int)),
            indices@ == cat_indices(items@.take(i as int)),
            groups@ == cat_groups(items@.take(i as int)),
            indices@.len() == total_index_count(items@.take(i as int)),
        decreases n - i,
    {
        proof {
            assert(items@.take(i + 1).drop_last() =~= items@.take(i as int));
            assert(items@.take(i + 1).last() == items@[i as int]);
            lemma_counts_monotonic(items@, i as int);
            lemma_counts_monotonic(items@, i + 1);
            lemma_counts_nonneg(items@.take(i as int));
            lemma_cat_lengths(items@.take(i as int));
            lemma_cat_lengths(items@.take(i + 1));
            lemma_cat_lengths(items@);
            lemma_vertices_prefix(items@, i + 1);
            lemma_vertices_prefix(items@, i as int);
        }
        let item = &items[i];
        proof {
            assert forall|k: int| 0 <= k < item.indicies@.len() implies item.indicies@[k] + (
            start as u16) <= u16::MAX by {
                assert(items@[i as int].well_formed());
            }
        }
        let range_start = indices.len() as u32;
        append_slice(&mut vertices, item.vertices.as_slice());
        append_shifted(&mut indices, item.indicies.as_slice(), start as u16);
        let tex_id = match &item.texture {
            Some(t) => t.id,
            None => 0,
        };
        groups.push(Group { start: range_start, end: indices.len() as u32, tex_id });
        proof {
            assert(vertices@ =~= cat_vertices(items@.take(i + 1)));
            assert(indices@ =~= cat_indices(items@.take(i + 1)));
            assert(groups@ =~= cat_groups(items@.take(i + 1)));
        }
        start = start + item.vertex_count;
        i = i + 1;
    }
    proof {
        assert(items@.take(n as int) =~= items@);
    }
    (vertices, indices, groups)
}

/// The vertex bytes of a prefix are never more than those of the whole
/// run.
proof fn lemma_vertices_prefix(items: Seq<Breakdown>, i: int)
    requires
        0 <= i <= items.len(),
    ensures
        cat_vertices(items.take(i)).len() <= cat_vertices(items).len(),
    decreases items.len() - i,
{
    if i < items.len() {
        assert(items.take(i + 1).drop_last() =~= items.take(i));
        lemma_vertices_prefix(items, i + 1);
        if i + 1 == items.len() {
            assert(items.take(i + 1) =~= items);
        }
    } else {
        assert(items.take(i) =~= items);
    }
}

/// Check at run time whether a run of breakdowns can be merged: every
/// breakdown well-formed and the totals within the index types of the
/// merged run.
pub fn validate_breakdowns(items: &Vec<Breakdown>) -> (b: bool)
    ensures
        b == breakdowns_valid(items@),
{
    let mut vt: u64 = 0;
    let mut it: u64 = 0;
    let mut vb: u64 = 0;
    let n = items.len();
    let mut i: usize = 0;
    while i < n
        invariant
            n == items@.len(),
            0 <= i <= n,
            vt == total_vertex_count(items@.take(i as int)),
            it == total_index_count(items@.take(i as int)),
            vb == cat_vertices(items@.take(i as int)).len(),
            vt <= u16::MAX,
            it <= u32::MAX,
            vb <= usize::MAX,
            forall|k: int| 0 <= k < i ==> (#[trigger] items@[k]).well_formed(),
        decreases n - i,
    {
        proof {
            assert(items@.take(i + 1).drop_last() =~= items@.take(i as int));
            assert(items@.take(i + 1).last() == items@[i as int]);
            lemma_counts_monotonic(items@, i + 1);
            lemma_vertices_prefix(items@, i + 1);
            lemma_cat_lengths(items@.take(i + 1));
        }
        let item = &items[i];
        let m = item.indicies.len();
        let mut k: usize = 0;
        while k < m
            invariant
                0 <= i < items@.len(),
                m == item.indicies@.len(),
                item == items@[i as int],
                0 <= k <= m,
                forall|j: int| 0 <= j < k ==> #[trigger] item.indicies@[j] < item.vertex_count,
            decreases m - k,
        {
            if !((item.indicies[k] as usize) < item.vertex_count) {
                assert(!items@[i as int].well_formed());
                return false;
            }
            k = k + 1;
        }
        assert(items@[i as int].well_formed());
        vt = match vt.checked_add(item.vertex_count as u64) {
            Some(s) => s,
            None => {
                return false;
            },
        };
        if vt > 0xffff {
            return false;
        }
        it = match it.checked_add(item.indicies.len() as u64) {
            Some(s) => s,
            None => {
                return false;
            },
        };
        if it > 0xffff_ffff {
            return false;
        }
        vb = match vb.checked_add(item.vertices.len() as u64) {
            Some(s) => s,
            None => {
                return false;
            },
        };
        if vb > usize::MAX as u64 {
            return false;
        }
        i = i + 1;
    }
    proof {
        assert(items@.take(n as int) =~= items@);
    }
    true
}

/// Check at run time whether every breakdown of a run carries a
/// texture.
pub fn validate_textured(items: &Vec<Breakdown>) -> (b: bool)
    ensures
        b == forall|i: int| 0 <= i < items@.len() ==> (#[trigger] items@[i]).texture is Some,
{
    let n = items.len();
    let mut i: usize = 0;
    while i < n
        invariant
            n == items@.len(),
            0 <= i <= n,
            forall|k: int| 0 <= k < i ==> (#[trigger] items@[k]).texture is Some,
        decreases n - i,
    {
        if items[i].texture.is_none() {
            return false;
        }
        i = i + 1;
    }
    true
}

/// Append a slice to a vector.
fn append_slice(dst: &mut Vec<u8>, src: &[u8])
    requires
        old(dst)@.len() + src@.len() <= usize::MAX,
    ensures
        final(dst)@ == old(dst)@ + src@,
{
    let n = src.len();
    let mut i: usize = 0;
    while i < n
        invariant
            n == src@.len(),
            old(dst)@.len() + n <= usize::MAX,
            0 <= i <= n,
            dst@ == old(dst)@ + src@.take(i as int),
        decreases n - i,
    {
        dst.push(src[i]);
        proof {
            assert(dst@ =~= old(dst)@ + src@.take(i + 1));
        }
        i = i + 1;
    }
    proof {
        assert(src@.take(n as int) =~= src@);
        assert(dst@ =~= old(dst)@ + src@);
    }
}

/// Append a slice of indices to a vector, each shifted up by `shift`.
fn append_shifted(dst: &mut Vec<u16>, src: &[u16], shift: u16)
    requires
        old(dst)@.len() + src@.len() <= usize::MAX,
        forall|k: int| 0 <= k < src@.len() ==> src@[k] + shift <= u16::MAX,
    ensures
        final(dst)@ == old(dst)@ + src@.map_values(|x: u16| (x + shift) as u16),
{
    let n = src.len();
    let mut i: usize = 0;
    while i < n
        invariant
            n == src@.len(),
            old(dst)@.len() + n <= usize::MAX,
            forall|k: int| 0 <= k < n ==> src@[k] + shift <= u16::MAX,
            0 <= i <= n,
            dst@ == old(dst)@ + src@.take(i as int).map_values(|x: u16| (x + shift) as u16),
        decreases n - i,
    {
        dst.push(src[i] + shift);
        proof {
            assert(dst@ =~= old(dst)@ + src@.take(i + 1).map_values(
                |x: u16| (x + shift) as u16,
            ));
        }
        i = i + 1;
    }
    proof {
        assert(src@.take(n as int) =~= src@);
    }
}

} // verus!
