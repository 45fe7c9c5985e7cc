//! Line samplers built on the hash noise source.
//!
//! Coordinates are IEEE-754 single-precision values carried as their 32-bit
//! patterns, so everything in this module is exact bit manipulation; the
//! caller reinterprets the patterns as floats only at the rendering edge.
//!
//! Two sampling strategies are offered:
//!
//! * [`indexed_line_bits`] is the stateless, index-addressable sampler: the
//!   line for index `i` is a pure function of `i`, so any call order, any
//!   repetition and any parallel split over indices reproduce the same
//!   lines bit for bit.
//! * [`ContinuousPathSampler`] is the stateful random-walk sampler.  It
//!   owns the walk state (current path end, step index, soft-boundary
//!   radius and step length) and decides the per-axis sign bias that pulls
//!   a strayed path back toward the origin.  The caller performs the one
//!   floating-point act per step — remapping the raw noise words to
//!   `[-1, 1]`, scaling by the step length and adding to the current
//!   vertex — and hands the stepped vertex back to [`advance`], which
//!   returns the connected segment and moves the state forward.
//!
//! [`advance`]: ContinuousPathSampler::advance

use vstd::prelude::*;

use crate::noise::spec_hash_noise_bits;
use crate::noise::hash_noise_bits;

verus! {

/// The sign bit of an IEEE-754 single-precision pattern.
pub const F32_SIGN_MASK: u32 = 0x8000_0000;

/// The magnitude (exponent and fraction) bits of an IEEE-754
/// single-precision pattern.
pub const F32_MAGNITUDE_MASK: u32 = 0x7fff_ffff;

/// Bit pattern of the single-precision value `1.0`, the default
/// soft-boundary radius.
pub const DEFAULT_RADIUS_BITS: u32 = 0x3f80_0000;

/// Bit pattern of the single-precision value `0.03`, the default step
/// length of the continuous sampler.
pub const DEFAULT_STEP_LENGTH_BITS: u32 = 0x3cf5_c28f;

/// Three 32-bit lanes, one per axis: either the bit patterns of a
/// single-precision point or the raw noise words it is remapped from.
#[derive(Clone, Copy, PartialEq, Eq, Structural, Debug)]
pub struct Vec3Bits {
    pub x: u32,
    pub y: u32,
    pub z: u32,
}

/// A line segment: the bit patterns of its two endpoints.
#[derive(Clone, Copy, PartialEq, Eq, Structural, Debug)]
pub struct LineBits {
    pub start: Vec3Bits,
    pub end: Vec3Bits,
}

/// The raw noise words of the point sampled at index `i` from the three
/// channels starting at `base_channel`.
pub open spec fn spec_point_words(i: u32, base_channel: u32) -> Vec3Bits {
    Vec3Bits {
        x: spec_hash_noise_bits(i, base_channel, 0),
        y: spec_hash_noise_bits(i, base_channel.wrapping_add(1), 0),
        z: spec_hash_noise_bits(i, base_channel.wrapping_add(2), 0),
    }
}

/// What the indexed sampler yields for index `i`: endpoint A from channels
/// 1 to 3, endpoint B from channels 4 to 6.
pub open spec fn spec_indexed_line_words(i: u32) -> LineBits {
    LineBits { start: spec_point_words(i, 1), end: spec_point_words(i, 4) }
}

/// Sample the raw noise words of one point from three consecutive
/// channels.
pub fn point_words(i: u32, base_channel: u32) -> (r: Vec3Bits)
    ensures
        r == spec_point_words(i, base_channel),
{
    Vec3Bits {
        x: hash_noise_bits(i, base_channel, 0),
        y: hash_noise_bits(i, base_channel.wrapping_add(1), 0),
        z: hash_noise_bits(i, base_channel.wrapping_add(2), 0),
    }
}

/// The index-addressable line sampler.
///
/// The result is a pure function of `i`: no state is read or written, so
/// repeated calls with the same index are bit-identical and indices may be
/// drawn in any order.  Each returned word is a raw hash; the caller remaps
/// it to a coordinate in `[-1, 1]` by `word / u32::MAX * 2 - 1` in single
/// precision.
pub fn indexed_line_bits(i: u32) -> (r: LineBits)
    ensures
        r == spec_indexed_line_words(i),
{
    LineBits { start: point_words(i, 1), end: point_words(i, 4) }
}

/// Restartability of the indexed sampler: any two results that the
/// contract of [`indexed_line_bits`] admits for the same index are
/// bit-identical lines.  The sampler reads and writes no state, so
/// calls may repeat, interleave or split across workers freely.
pub proof fn lemma_indexed_sampler_restartable(i: u32, r1: LineBits, r2: LineBits)
    requires
        r1 == spec_indexed_line_words(i),
        r2 == spec_indexed_line_words(i),
    ensures
        r1 == r2,
{
}

/// The magnitude bits of a single-precision pattern: its absolute value.
pub open spec fn spec_magnitude_bits(b: u32) -> u32 {
    b & F32_MAGNITUDE_MASK
}

/// The sign bit opposite to the sign of `b`.
pub open spec fn spec_opposite_sign_bit(b: u32) -> u32 {
    (b & F32_SIGN_MASK) ^ F32_SIGN_MASK
}

/// Whether the soft boundary is breached on one axis: the coordinate's
/// magnitude bits exceed the radius's magnitude bits.  For finite
/// single-precision values this order coincides with the order of the
/// absolute values.
pub open spec fn spec_exceeds_radius(coord: u32, radius: u32) -> bool {
    spec_magnitude_bits(coord) > spec_magnitude_bits(radius)
}

/// The soft-boundary bias on one axis: while the coordinate lies beyond
/// the radius, the noise value's sign is forced opposite to the
/// coordinate's sign — the magnitude is untouched, so a step may still
/// overshoot — and otherwise the noise value passes through unchanged.
pub open spec fn spec_biased_component(noise: u32, coord: u32, radius: u32) -> u32 {
    if spec_exceeds_radius(coord, radius) {
        spec_magnitude_bits(noise) | spec_opposite_sign_bit(coord)
    } else {
        noise
    }
}

/// The stateful continuous random-walk sampler.
///
/// One step proceeds in three exchanges with the caller:
/// [`step_words`] yields the raw noise words for the current step index;
/// the caller remaps them to `[-1, 1]`, asks [`bias_noise`] to apply the
/// soft-boundary sign bias against the current vertex, scales the biased
/// noise by the step length and adds it to the current vertex; and
/// [`advance`] records the stepped vertex and returns the connected
/// segment.  All decisions — channel selection, sign bias, state
/// progression — are made here; the caller contributes only the
/// floating-point remap, scale and add.
///
/// The state is exclusively owned: it is not shared across scenarios and
/// is not safe for concurrent stepping without external synchronization.
///
/// [`step_words`]: ContinuousPathSampler::step_words
/// [`bias_noise`]: ContinuousPathSampler::bias_noise
/// [`advance`]: ContinuousPathSampler::advance
#[derive(Clone, Copy, PartialEq, Eq, Structural, Debug)]
pub struct ContinuousPathSampler {
    /// Bit patterns of the current end of the path.
    pub last_vert: Vec3Bits,
    /// Bit pattern of the soft-boundary radius.
    pub radius_bits: u32,
    /// Index of the next step; keys the noise channels.
    pub step_index: u32,
    /// Bit pattern of the per-step scale factor.
    pub step_length_bits: u32,
}

/// The relation between a sampler state before a step, the stepped vertex
/// handed in by the caller, the state after the step, and the returned
/// segment: the segment runs from the old path end to the stepped vertex,
/// which becomes the new path end, and the step index moves on by one
/// (wrapping after 2^32 steps, where the noise sequence repeats).
pub open spec fn spec_advance(
    pre: ContinuousPathSampler,
    stepped: Vec3Bits,
    post: ContinuousPathSampler,
    line: LineBits,
) -> bool {
    &&& line.start == pre.last_vert
    &&& line.end == stepped
    &&& post.last_vert == stepped
    &&& post.step_index == pre.step_index.wrapping_add(1)
    &&& post.radius_bits == pre.radius_bits
    &&& post.step_length_bits == pre.step_length_bits
}

impl ContinuousPathSampler {
    /// A sampler with the given boundary radius and step length, starting
    /// at the origin with step index 0.
    pub fn with_params(radius_bits: u32, step_length_bits: u32) -> (r: Self)
        ensures
            r.last_vert == (Vec3Bits { x: 0u32, y: 0u32, z: 0u32 }),
            r.radius_bits == radius_bits,
            r.step_index == 0,
            r.step_length_bits == step_length_bits,
    {
        ContinuousPathSampler {
            last_vert: Vec3Bits { x: 0, y: 0, z: 0 },
            radius_bits,
            step_index: 0,
            step_length_bits,
        }
    }

    /// A sampler with the default radius `1.0` and step length `0.03`.
    pub fn new() -> (r: Self)
        ensures
            r.last_vert == (Vec3Bits { x: 0u32, y: 0u32, z: 0u32 }),
            r.radius_bits == DEFAULT_RADIUS_BITS,
            r.step_index == 0,
            r.step_length_bits == DEFAULT_STEP_LENGTH_BITS,
    {
        Self::with_params(DEFAULT_RADIUS_BITS, DEFAULT_STEP_LENGTH_BITS)
    }

    /// The raw noise words for the current step, drawn from channels 1 to
    /// 3 keyed on the step index.
    pub fn step_words(&self) -> (r: Vec3Bits)
        ensures
            r == spec_point_words(self.step_index, 1),
    {
        point_words(self.step_index, 1)
    }

    /// Apply the soft-boundary sign bias to a remapped noise vector: on
    /// each axis whose current coordinate lies beyond the radius, the
    /// noise value's sign is forced to point back toward the origin.
    pub fn bias_noise(&self, noise: Vec3Bits) -> (r: Vec3Bits)
        ensures
            r.x == spec_biased_component(noise.x, self.last_vert.x, self.radius_bits),
            r.y == spec_biased_component(noise.y, self.last_vert.y, self.radius_bits),
            r.z == spec_biased_component(noise.z, self.last_vert.z, self.radius_bits),
    {
        Vec3Bits {
            x: biased_component(noise.x, self.last_vert.x, self.radius_bits),
            y: biased_component(noise.y, self.last_vert.y, self.radius_bits),
            z: biased_component(noise.z, self.last_vert.z, self.radius_bits),
        }
    }

    /// Record the stepped vertex and return the connected segment from the
    /// previous path end to it.
    pub fn advance(&mut self, stepped: Vec3Bits) -> (line: LineBits)
        ensures
            spec_advance(*old(self), stepped, *final(self), line),
    {
        let line = LineBits { start: self.last_vert, end: stepped };
        self.last_vert = stepped;
        self.step_index = self.step_index.wrapping_add(1);
        line
    }
}

/// The soft-boundary bias on one axis.
fn biased_component(noise: u32, coord: u32, radius: u32) -> (r: u32)
    ensures
        r == spec_biased_component(noise, coord, radius),
{
    if (coord & F32_MAGNITUDE_MASK) > (radius & F32_MAGNITUDE_MASK) {
        (noise & F32_MAGNITUDE_MASK) | ((coord & F32_SIGN_MASK) ^ F32_SIGN_MASK)
    } else {
        noise
    }
}

/// Connectivity of the continuous path: across any two consecutive steps
/// of one sampler, the second segment starts exactly where the first one
/// ended.  Chained over a whole run, every segment's start equals the
/// previous segment's end, whatever vertices the caller steps to.
pub proof fn lemma_path_connected(
    s0: ContinuousPathSampler,
    v1: Vec3Bits,
    s1: ContinuousPathSampler,
    line1: LineBits,
    v2: Vec3Bits,
    s2: ContinuousPathSampler,
    line2: LineBits,
)
    requires
        spec_advance(s0, v1, s1, line1),
        spec_advance(s1, v2, s2, line2),
    ensures
        line2.start == line1.end,
{
}

/// Connectivity over a whole run: given the states a sampler passes
/// through and the segments it returns, consecutive segments share their
/// meeting vertex at every position.
pub proof fn lemma_run_connected(
    states: Seq<ContinuousPathSampler>,
    stepped: Seq<Vec3Bits>,
    lines: Seq<LineBits>,
)
    requires
        states.len() == lines.len() + 1,
        stepped.len() == lines.len(),
        forall|k: int|
            0 <= k < lines.len() ==> spec_advance(states[k], stepped[k], states[k + 1], lines[k]),
    ensures
        forall|k: int| 1 <= k < lines.len() ==> lines[k].start == lines[k - 1].end,
{
    assert forall|k: int| 1 <= k < lines.len() implies lines[k].start == lines[k - 1].end by {
        assert(spec_advance(states[k - 1], stepped[k - 1], states[k], lines[k - 1]));
        assert(spec_advance(states[k], stepped[k], states[k + 1], lines[k]));
    }
}

} // verus!
