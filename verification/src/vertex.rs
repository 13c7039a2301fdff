//! The vertex layout builder: an ordered list of format tags becomes a
//! concrete attribute layout (stride, per-attribute byte offset, shader
//! location index).

use vstd::prelude::*;

verus! {

/// Possible formats for a vertex attribute.
#[derive(Debug, Clone, Copy, PartialEq, Eq, Structural)]
pub enum VertexFormat {
    Floatx1,
    Floatx2,
    Floatx3,
    Floatx4,
    Uint32,
}

/// The fixed byte width of one attribute of the given format.
pub open spec fn format_size(fmt: VertexFormat) -> int {
    match fmt {
        VertexFormat::Floatx1 => 4,
        VertexFormat::Floatx2 => 8,
        VertexFormat::Floatx3 => 12,
        VertexFormat::Floatx4 => 16,
        VertexFormat::Uint32 => 4,
    }
}

/// The stride of a layout built from `fmts`: the sum of each tag's fixed
/// byte width.
pub open spec fn stride_of(fmts: Seq<VertexFormat>) -> int
    decreases fmts.len(),
{
    if fmts.len() == 0 {
        0
    } else {
        stride_of(fmts.drop_last()) + format_size(fmts.last())
    }
}

impl VertexFormat {
    /// Byte width of one attribute of this format.
    pub fn bytesize(self) -> (r: u64)
        ensures
            r == format_size(self),
    {
        match self {
            VertexFormat::Floatx1 => 4,
            VertexFormat::Floatx2 => 8,
            VertexFormat::Floatx3 => 12,
            VertexFormat::Floatx4 => 16,
            VertexFormat::Uint32 => 4,
        }
    }
}

/// One concrete vertex attribute of a [`VertexLayout`].
#[derive(Debug, Clone, Copy, PartialEq, Eq, Structural)]
pub struct VertexAttribute {
    /// Index of the attribute in shader code.
    pub shader_location: u32,
    /// Byte offset of the attribute from the start of a vertex.
    pub offset: u64,
    /// Format of the attribute.
    pub format: VertexFormat,
}

/// A concrete vertex layout: the attributes of one vertex and the aggregate
/// stride in bytes.
#[derive(Debug, Clone)]
pub struct VertexLayout {
    /// Vertex attributes, one per format tag, in declaration order.
    pub wgpu_attrs: Vec<VertexAttribute>,
    /// Aggregate stride in bytes: the byte distance between two vertices.
    pub size: u64,
}

impl VertexLayout {
    /// The layout is exactly the one determined by `fmts`: one attribute per
    /// tag, offsets contiguous from 0, shader locations dense from 0, and
    /// the stride the sum of the tags' byte widths.
    pub open spec fn describes(self, fmts: Seq<VertexFormat>) -> bool {
        &&& fmts.len() * 16 <= u32::MAX
        &&& self.wgpu_attrs.len() == fmts.len()
        &&& self.size == stride_of(fmts)
        &&& forall|i: int| 0 <= i < fmts.len() ==> #[trigger] self.wgpu_attrs[i] == (VertexAttribute {
            shader_location: i as u32,
            offset: stride_of(fmts.take(i)) as u64,
            format: fmts[i],
        })
    }

    /// Build a layout from an ordered list of format tags.
    pub fn from(vformats: &[VertexFormat]) -> (r: VertexLayout)
        requires
            vformats@.len() * 16 <= u32::MAX,
        ensures
            r.describes(vformats@),
    {
        let mut attrs: Vec<VertexAttribute> = Vec::new();
        let mut size: u64 = 0;
        let n = vformats.len();
        let mut i: usize = 0;
        while i < n
            invariant
                n == vformats@.len(),
                n * 16 <= u32::MAX,
                0 <= i <= n,
                attrs.len() == i,
                size == stride_of(vformats@.take(i as int)),
                size <= i * 16,
                forall|j: int| 0 <= j < i ==> #[trigger] attrs[j] == (VertexAttribute {
                    shader_location: j as u32,
                    offset: stride_of(vformats@.take(j)) as u64,
                    format: vformats@[j],
                }),
            decreases n - i,
        {
            let fmt = vformats[i];
            attrs.push(VertexAttribute {
                shader_location: i as u32,
                offset: size,
                format: fmt,
            });
            proof {
                assert(vformats@.take(i + 1).drop_last() =~= vformats@.take(i as int));
            }
            size = size + fmt.bytesize();
            i = i + 1;
        }
        proof {
            assert(vformats@.take(n as int) =~= vformats@);
        }
        VertexLayout { wgpu_attrs: attrs, size }
    }
}

/// The offsets of a layout built from format tags are strictly increasing
/// and contiguous, starting at 0: the first attribute sits at offset 0 and
/// each later one exactly one byte width after the one before it, so the
/// stride is the sum of every tag's fixed byte width with no gaps.
pub proof fn lemma_layout_offsets(layout: VertexLayout, fmts: Seq<VertexFormat>)
    requires
        layout.describes(fmts),
    ensures
        fmts.len() > 0 ==> layout.wgpu_attrs[0].offset == 0,
        forall|i: int| 0 <= i < fmts.len() - 1 ==> #[trigger] layout.wgpu_attrs[i + 1].offset
            == layout.wgpu_attrs[i].offset + format_size(fmts[i]),
        forall|i: int| 0 <= i < fmts.len() - 1 ==> #[trigger] layout.wgpu_attrs[i].offset
            < layout.wgpu_attrs[i + 1].offset,
        fmts.len() > 0 ==> layout.size == layout.wgpu_attrs[fmts.len() - 1].offset
            + format_size(fmts[fmts.len() - 1]),
{
    assert(fmts.take(0) =~= Seq::<VertexFormat>::empty());
    assert forall|i: int| 0 <= i < fmts.len() - 1 implies #[trigger] layout.wgpu_attrs[i
        + 1].offset == layout.wgpu_attrs[i].offset + format_size(fmts[i]) by {
        assert(fmts.take(i + 1).drop_last() =~= fmts.take(i));
        lemma_stride_nonneg(fmts.take(i));
        lemma_stride_nonneg(fmts.take(i + 1));
    }
    assert forall|i: int| 0 <= i < fmts.len() - 1 implies #[trigger] layout.wgpu_attrs[i].offset
        < layout.wgpu_attrs[i + 1].offset by {
        assert(fmts.take(i + 1).drop_last() =~= fmts.take(i));
        lemma_stride_nonneg(fmts.take(i));
        lemma_stride_nonneg(fmts.take(i + 1));
    }
    if fmts.len() > 0 {
        let n = fmts.len() as int;
        assert(fmts.take(n) =~= fmts);
        assert(fmts.take(n).drop_last() =~= fmts.take(n - 1));
        lemma_stride_nonneg(fmts.take(n - 1));
    }
}

/// The stride of any format list is non-negative, and at most 16 bytes per
/// tag.
pub proof fn lemma_stride_nonneg(fmts: Seq<VertexFormat>)
    ensures
        0 <= stride_of(fmts) <= 16 * fmts.len(),
    decreases fmts.len(),
{
    if fmts.len() > 0 {
        lemma_stride_nonneg(fmts.drop_last());
    }
}

} // verus!
