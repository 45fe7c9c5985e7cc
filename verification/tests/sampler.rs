use line_racer::noise::hash_noise_bits;
use line_racer::sampler::{
    ContinuousPathSampler, Vec3Bits, DEFAULT_RADIUS_BITS, DEFAULT_STEP_LENGTH_BITS,
    indexed_line_bits,
};

/// The remap a renderer applies to a hash word.
fn unormf(n: u32) -> f32 {
    n as f32 * (1.0 / 0xffffffffu32 as f32)
}

/// A hash word remapped to a coordinate in [-1, 1].
fn remap(n: u32) -> f32 {
    unormf(n) * 2.0 - 1.0
}

fn to_floats(v: Vec3Bits) -> [f32; 3] {
    [f32::from_bits(v.x), f32::from_bits(v.y), f32::from_bits(v.z)]
}

fn to_bits(v: [f32; 3]) -> Vec3Bits {
    Vec3Bits { x: v[0].to_bits(), y: v[1].to_bits(), z: v[2].to_bits() }
}

/// One step of the continuous walk, with the floating-point remap, scale
/// and add done here and every decision made by the sampler.
fn walk_step(sampler: &mut ContinuousPathSampler) -> ([f32; 3], [f32; 3]) {
    let words = sampler.step_words();
    let noise = to_bits([remap(words.x), remap(words.y), remap(words.z)]);
    let biased = to_floats(sampler.bias_noise(noise));
    let length = f32::from_bits(sampler.step_length_bits);
    let last = to_floats(sampler.last_vert);
    let next = [
        last[0] + biased[0] * length,
        last[1] + biased[1] * length,
        last[2] + biased[2] * length,
    ];
    let line = sampler.advance(to_bits(next));
    (to_floats(line.start), to_floats(line.end))
}

#[test]
fn default_parameter_bit_patterns() {
    assert_eq!(DEFAULT_RADIUS_BITS, 1.0f32.to_bits());
    assert_eq!(DEFAULT_STEP_LENGTH_BITS, 0.03f32.to_bits());
}

#[test]
fn indexed_sampler_is_restartable() {
    // Calling with the same index twice yields bit-identical endpoints,
    // both as raw words and after the floating-point remap.
    for i in [0u32, 1, 4, 17, 99_999] {
        let first = indexed_line_bits(i);
        let second = indexed_line_bits(i);
        assert_eq!(first, second);
        for (w1, w2) in [
            (first.start.x, second.start.x),
            (first.start.y, second.start.y),
            (first.start.z, second.start.z),
            (first.end.x, second.end.x),
            (first.end.y, second.end.y),
            (first.end.z, second.end.z),
        ] {
            assert_eq!(remap(w1).to_bits(), remap(w2).to_bits());
        }
    }
}

#[test]
fn indexed_sampler_order_independent() {
    let forward: Vec<_> = (0..50u32).map(indexed_line_bits).collect();
    let backward: Vec<_> = (0..50u32).rev().map(indexed_line_bits).collect();
    for i in 0..50usize {
        assert_eq!(forward[i], backward[49 - i]);
    }
}

#[test]
fn indexed_line_four_matches_hash_noise_channels() {
    // Endpoint A of index 4 comes from channels 1..3 and endpoint B from
    // channels 4..6, each hash_noise(4, c, 0) * 2 - 1.
    let line = indexed_line_bits(4);
    let a = [remap(line.start.x), remap(line.start.y), remap(line.start.z)];
    let b = [remap(line.end.x), remap(line.end.y), remap(line.end.z)];
    let expected_a = [
        unormf(hash_noise_bits(4, 1, 0)) * 2.0 - 1.0,
        unormf(hash_noise_bits(4, 2, 0)) * 2.0 - 1.0,
        unormf(hash_noise_bits(4, 3, 0)) * 2.0 - 1.0,
    ];
    let expected_b = [
        unormf(hash_noise_bits(4, 4, 0)) * 2.0 - 1.0,
        unormf(hash_noise_bits(4, 5, 0)) * 2.0 - 1.0,
        unormf(hash_noise_bits(4, 6, 0)) * 2.0 - 1.0,
    ];
    for k in 0..3 {
        assert_eq!(a[k].to_bits(), expected_a[k].to_bits());
        assert_eq!(b[k].to_bits(), expected_b[k].to_bits());
    }
}

#[test]
fn continuous_path_is_connected() {
    // Every segment starts exactly where the previous one ended.
    let mut sampler = ContinuousPathSampler::new();
    let mut previous_end: Option<[f32; 3]> = None;
    for _ in 0..200 {
        let (start, end) = walk_step(&mut sampler);
        if let Some(prev) = previous_end {
            for k in 0..3 {
                assert_eq!(start[k].to_bits(), prev[k].to_bits());
            }
        }
        previous_end = Some(end);
    }
}

#[test]
fn continuous_path_starts_at_origin() {
    let mut sampler = ContinuousPathSampler::new();
    let (start, _) = walk_step(&mut sampler);
    assert_eq!(start, [0.0, 0.0, 0.0]);
}

#[test]
fn soft_boundary_rarely_overshoots() {
    // The sign bias pulls the walk back once it strays past the radius;
    // it biases rather than clamps, so single steps may overshoot, but
    // excursions past 1.5 times the radius must stay rare.
    let mut sampler = ContinuousPathSampler::new();
    let mut outside: u32 = 0;
    let steps: u32 = 10_000;
    for _ in 0..steps {
        let (_, end) = walk_step(&mut sampler);
        if end.iter().any(|c| c.abs() > 1.5) {
            outside += 1;
        }
    }
    let fraction = outside as f64 / steps as f64;
    assert!(fraction < 0.05, "overshoot fraction {fraction} too high");
}

#[test]
fn soft_boundary_bias_points_inward() {
    // A coordinate beyond the radius forces the noise sign opposite to
    // the coordinate's sign and keeps the magnitude.
    let sampler = ContinuousPathSampler {
        last_vert: to_bits([1.25, -1.5, 0.5]),
        radius_bits: 1.0f32.to_bits(),
        step_index: 0,
        step_length_bits: 0.03f32.to_bits(),
    };
    let noise = to_bits([0.75, -0.25, -0.625]);
    let biased = to_floats(sampler.bias_noise(noise));
    assert_eq!(biased[0], -0.75);
    assert_eq!(biased[1], 0.25);
    assert_eq!(biased[2], -0.625);
}

#[test]
fn continuous_sampler_steps_through_channels() {
    // Step n draws its noise words from channels 1..3 keyed on n.
    let mut sampler = ContinuousPathSampler::new();
    for n in 0..5u32 {
        let words = sampler.step_words();
        assert_eq!(words.x, hash_noise_bits(n, 1, 0));
        assert_eq!(words.y, hash_noise_bits(n, 2, 0));
        assert_eq!(words.z, hash_noise_bits(n, 3, 0));
        walk_step(&mut sampler);
    }
}
