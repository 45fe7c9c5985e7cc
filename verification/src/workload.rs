//! Working-set builders.
//!
//! A working set is the ordered collection of lines (or path vertices)
//! generated for one benchmark run.  It is owned by the running scenario
//! and replaced wholesale whenever the workload size changes.
//!
//! The builders here produce the renderer-ready orderings that the drawing
//! backends consume: the indexed segment list, the flattened
//! vertex-per-endpoint stream of a line-list mesh, and the single
//! connected stream that represents disjoint segments inside one path by
//! separating them with a quiet-NaN sentinel vertex.  The sentinel's
//! IEEE-754 pattern is carried bit for bit; it marks a path break and is
//! not an error value.

use vstd::prelude::*;

use crate::sampler::LineBits;
use crate::sampler::Vec3Bits;
use crate::sampler::indexed_line_bits;
use crate::sampler::spec_indexed_line_words;

verus! {

/// Bit pattern of the quiet NaN used as the path-break sentinel.
pub const NAN_BITS: u32 = 0x7fc0_0000;

/// The fixed workload size used when automatic workload scaling is off.
pub const DEFAULT_WORKLOAD_SIZE: u32 = 150_000;

/// The sentinel vertex that splits an otherwise connected vertex path
/// into disjoint segments.
pub open spec fn spec_nan_vertex() -> Vec3Bits {
    Vec3Bits { x: NAN_BITS, y: NAN_BITS, z: NAN_BITS }
}

/// The sentinel vertex as a value.
pub fn nan_vertex() -> (r: Vec3Bits)
    ensures
        r == spec_nan_vertex(),
{
    Vec3Bits { x: NAN_BITS, y: NAN_BITS, z: NAN_BITS }
}

/// Build the indexed working set: one line per index, in index order.
pub fn indexed_segments(count: u32) -> (r: Vec<LineBits>)
    ensures
        r@.len() == count,
        forall|k: int| 0 <= k < count ==> r@[k] == spec_indexed_line_words(k as u32),
{
    let mut r: Vec<LineBits> = Vec::new();
    let mut i: u32 = 0;
    while i < count
        invariant
            i <= count,
            r@.len() == i,
            forall|k: int| 0 <= k < i ==> r@[k] == spec_indexed_line_words(k as u32),
        decreases count - i,
    {
        r.push(indexed_line_bits(i));
        i = i + 1;
    }
    r
}

/// Flatten segments into the vertex stream of a line-list mesh: each
/// segment contributes its start and then its end, every pair of
/// consecutive vertices being one line.
pub fn segment_vertices(segments: &Vec<LineBits>) -> (r: Vec<Vec3Bits>)
    requires
        segments@.len() * 2 <= usize::MAX,
    ensures
        r@.len() == segments@.len() * 2,
        forall|k: int|
            0 <= k < segments@.len() ==> r@[2 * k] == segments@[k].start && r@[2 * k + 1]
                == segments@[k].end,
{
    let mut r: Vec<Vec3Bits> = Vec::new();
    let mut i: usize = 0;
    while i < segments.len()
        invariant
            i <= segments@.len(),
            segments@.len() * 2 <= usize::MAX,
            r@.len() == i * 2,
            forall|k: int|
                0 <= k < i ==> r@[2 * k] == segments@[k].start && r@[2 * k + 1]
                    == segments@[k].end,
        decreases segments@.len() - i,
    {
        r.push(segments[i].start);
        r.push(segments[i].end);
        i = i + 1;
    }
    r
}

/// Flatten segments into one connected vertex path, separating the
/// segments with the NaN sentinel: each segment contributes its start,
/// its end and then one sentinel vertex.
pub fn nan_delimited_path(segments: &Vec<LineBits>) -> (r: Vec<Vec3Bits>)
    requires
        segments@.len() * 3 <= usize::MAX,
    ensures
        r@.len() == segments@.len() * 3,
        forall|k: int|
            0 <= k < segments@.len() ==> r@[3 * k] == segments@[k].start && r@[3 * k + 1]
                == segments@[k].end && r@[3 * k + 2] == spec_nan_vertex(),
{
    let mut r: Vec<Vec3Bits> = Vec::new();
    let mut i: usize = 0;
    while i < segments.len()
        invariant
            i <= segments@.len(),
            segments@.len() * 3 <= usize::MAX,
            r@.len() == i * 3,
            forall|k: int|
                0 <= k < i ==> r@[3 * k] == segments@[k].start && r@[3 * k + 1] == segments@[k].end
                    && r@[3 * k + 2] == spec_nan_vertex(),
        decreases segments@.len() - i,
    {
        let ghost pre = r@;
        r.push(segments[i].start);
        r.push(segments[i].end);
        r.push(nan_vertex());
        proof {
            let with_start = pre.push(segments@[i as int].start);
            let with_end = with_start.push(segments@[i as int].end);
            assert(r@ == with_end.push(spec_nan_vertex()));
            assert(r@[3 * (i as int)] == segments@[i as int].start);
            assert(r@[3 * (i as int) + 1] == segments@[i as int].end);
            assert(r@[3 * (i as int) + 2] == spec_nan_vertex());
            assert forall|k: int| 0 <= k < i implies r@[3 * k] == (#[trigger] segments@[k]).start
                && r@[3 * k + 1] == segments@[k].end && r@[3 * k + 2] == spec_nan_vertex() by {
                assert(3 * k + 2 < 3 * (i as int));
                assert(pre[3 * k] == segments@[k].start);
                assert(r@[3 * k] == pre[3 * k]);
                assert(r@[3 * k + 1] == pre[3 * k + 1]);
                assert(r@[3 * k + 2] == pre[3 * k + 2]);
            }
        }
        i = i + 1;
    }
    r
}

} // verus!
