//! The index buffer records, and the write-granularity padding of 16-bit
//! index data.
//!
//! Native buffer writes are made in 4-byte units. A run of 16-bit indices
//! is therefore padded with zero-value indices up to a multiple of four
//! indices before it is written, and every native allocation for a 16-bit
//! index buffer is rounded up the same way, so a padded write of any run
//! that fits the logical capacity also fits the allocation. The padding is
//! a write-granularity artifact only: it never shows in the logical element
//! count. 32-bit indices are already 4-byte units and need no padding.

use vstd::prelude::*;

verus! {

/// The length of a run of `n` 16-bit indices after padding to a multiple
/// of four.
pub open spec fn padded_len(n: int) -> int {
    if n % 4 == 0 {
        n
    } else {
        n + (4 - n % 4)
    }
}

/// The padded run: the indices themselves followed by zero-value indices
/// up to a multiple of four.
pub open spec fn padded(s: Seq<u16>) -> Seq<u16> {
    s + Seq::new((padded_len(s.len() as int) - s.len()) as nat, |i: int| 0u16)
}

/// Padding pads: the padded length is a multiple of four, at least the
/// run's own length, and less than four more than it; a run already a
/// multiple of four is unchanged.
pub proof fn lemma_padded_len(n: int)
    requires
        n >= 0,
    ensures
        padded_len(n) % 4 == 0,
        n <= padded_len(n) < n + 4,
        n % 4 == 0 ==> padded_len(n) == n,
{
}

/// The shape of a padded run: the original indices first, untouched,
/// then zero-value indices up to a multiple of four; the logical length
/// of the run is unchanged by padding.
pub proof fn lemma_padded_shape(s: Seq<u16>)
    ensures
        padded(s).len() == padded_len(s.len() as int),
        padded(s).take(s.len() as int) == s,
        forall|i: int| s.len() <= i < padded(s).len() ==> padded(s)[i] == 0,
{
    assert(padded(s).take(s.len() as int) =~= s);
}

/// Padding is monotone: a run no longer than another pads to a length no
/// longer than the other's.
pub proof fn lemma_padded_len_monotonic(n: int, m: int)
    requires
        0 <= n <= m,
    ensures
        padded_len(n) <= padded_len(m),
{
}

/// The padded length of a run of `n` 16-bit indices, computed at run
/// time.
pub fn padded_len_of(n: u32) -> (r: u64)
    ensures
        r == padded_len(n as int),
{
    let rem = n % 4;
    if rem == 0 {
        n as u64
    } else {
        n as u64 + (4 - rem) as u64
    }
}

/// Append zero-value indices to a run of 16-bit indices until its length
/// is a multiple of four.
pub fn pad_indices(indices: Vec<u16>) -> (r: Vec<u16>)
    requires
        padded_len(indices@.len() as int) <= usize::MAX,
    ensures
        r@ == padded(indices@),
        r@.len() == padded_len(indices@.len() as int),
{
    let n = indices.len();
    let ghost target = padded_len(n as int);
    let mut r = indices;
    while r.len() % 4 != 0
        invariant
            n <= r@.len() <= target,
            target == padded_len(n as int),
            target <= usize::MAX,
            r@.len() < target ==> r@.len() % 4 != 0,
            r@ == padded(r@.take(n as int)).take(r@.len() as int),
            r@.take(n as int) == indices@,
        decreases target - r@.len(),
    {
        proof {
            lemma_padded_len(n as int);
        }
        r.push(0);
        proof {
            assert(r@.take(n as int) =~= indices@);
            assert(r@ =~= padded(indices@).take(r@.len() as int));
        }
    }
    proof {
        lemma_padded_len(n as int);
        assert(r@ =~= padded(indices@));
    }
    r
}

/// The record of a 16-bit index buffer: its capacity and live count in
/// indices, the indices the native buffer holds, and its debug name.
#[derive(Debug, Clone)]
pub struct IndexBuffer {
    /// Capacity of the buffer in indices.
    pub size: u32,
    /// Number of live indices, at most the capacity.
    pub elements: u32,
    /// The indices the native buffer holds, padded to a multiple of four.
    pub data: Vec<u16>,
    /// Name of the index buffer.
    pub name: Option<String>,
}

impl IndexBuffer {
    /// The live count fits the capacity and the native allocation is the
    /// capacity padded to the write granularity.
    pub open spec fn well_formed(self) -> bool {
        &&& self.elements <= self.size
        &&& self.data.len() == padded_len(self.size as int)
    }

    /// The logical indices the buffer holds: its capacity's worth of
    /// entries, excluding the write-granularity padding of the native
    /// allocation beyond them.
    pub fn slice(&self) -> (s: &[u16])
        requires
            self.well_formed(),
        ensures
            s@ == self.data@.take(self.size as int),
    {
        proof {
            lemma_padded_len(self.size as int);
            assert(self.data@.subrange(0, self.size as int) =~= self.data@.take(
                self.size as int,
            ));
        }
        vstd::slice::slice_subrange(self.data.as_slice(), 0, self.size as usize)
    }
}

/// The record of a 32-bit index buffer: its capacity and live count in
/// indices, the indices the native buffer holds, and its debug name.
#[derive(Debug, Clone)]
pub struct IndexBuffer32 {
    /// Capacity of the buffer in indices.
    pub size: u32,
    /// Number of live indices, at most the capacity.
    pub elements: u32,
    /// The indices the native buffer holds.
    pub data: Vec<u32>,
    /// Name of the index buffer.
    pub name: Option<String>,
}

impl IndexBuffer32 {
    /// The live count fits the capacity and the native allocation is the
    /// capacity.
    pub open spec fn well_formed(self) -> bool {
        &&& self.elements <= self.size
        &&& self.data.len() == self.size
    }

    /// The logical indices the buffer holds: its capacity's worth of
    /// entries, which is the whole native allocation.
    pub fn slice(&self) -> (s: &[u32])
        requires
            self.well_formed(),
        ensures
            s@ == self.data@.take(self.size as int),
            s@ == self.data@,
    {
        proof {
            assert(self.data@.take(self.size as int) =~= self.data@);
        }
        self.data.as_slice()
    }
}

} // verus!
