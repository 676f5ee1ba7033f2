use vstd::prelude::*;
use crate::rng::RNG;

verus! {

/// Resolution of noise samples: values are fixed-point in `[0, 4096)`,
/// where 4096 stands for 1.0.
pub const NOISE_ONE: u64 = 4096;

/// The pseudo-random lattice value noise interpolates between: a mix of
/// the seed and the lattice coordinates, reduced to `[0, 4096)`.
fn lattice_hash(seed: u32, x: i64, y: i64, z: i64) -> (r: u64)
    ensures
        r < NOISE_ONE,
{
    let mut h: u64 = (seed as u64) ^ 0x9E3779B97F4A7C15;
    h = h ^ (#[verifier::truncate] (x as u64)).wrapping_mul(0xBF58476D1CE4E5B9);
    h = h ^ (h >> 27);
    h = h ^ (#[verifier::truncate] (y as u64)).wrapping_mul(0x94D049BB133111EB);
    h = h ^ (h >> 31);
    h = h ^ (#[verifier::truncate] (z as u64)).wrapping_mul(0xD6E8FEB86659FD93);
    h = h ^ (h >> 29);
    h = h.wrapping_mul(0x2545F4914F6CDD1D);
    let r = (h >> 52) & 0xFFF;
    proof {
        assert((h >> 52) & 0xFFF < 4096) by (bit_vector);
    }
    r
}

/// A seeded coherent noise field: lattice value noise with trilinear
/// interpolation, normalized to fixed-point `[0, 4096)` and sampled at a
/// configurable spatial scale.  A pure function of the seed, the scale
/// and the position, so identical seeds reproduce identical fields.
#[derive(Debug, Clone, Copy)]
pub struct NoiseGen {
    pub seed: u32,
    /// Size of one lattice cell, in thousandths of a voxel.
    pub scale_milli: u32,
}

/// Lattice cell and sub-cell position of a scaled coordinate: the cell
/// index and the fraction through it in `[0, 4096)`.
fn noise_split(x: i32, scale_milli: u32) -> (r: (i64, i64))
    requires
        scale_milli >= 1,
    ensures
        0 <= r.1 < 4096,
        -3_000_000_000_000 <= r.0 <= 3_000_000_000_000,
{
    let s: i64 = scale_milli as i64;
    let u: i64 = (x as i64) * 1000;
    proof {
        assert(-3_000_000_000_000 <= (u as int) / (s as int) <= 3_000_000_000_000)
            by (nonlinear_arith)
            requires
                s >= 1,
                -3_000_000_000_000 <= u <= 3_000_000_000_000,
        ;
    }
    let c: i64 = match u.checked_div_euclid(s) {
        Some(v) => v,
        None => vstd::pervasive::unreached(),
    };
    let f: i64 = match u.checked_rem_euclid(s) {
        Some(v) => v,
        None => vstd::pervasive::unreached(),
    };
    proof {
        assert(0 <= f < s);
        assert(f * 4096 < s * 4096) by (nonlinear_arith)
            requires
                0 <= f < s,
        ;
        assert(((f * 4096) as int) / (s as int) < 4096 && ((f * 4096) as int) / (s as int)
            >= 0) by (nonlinear_arith)
            requires
                0 <= f < s,
                f * 4096 < s * 4096,
        ;
    }
    (c, (f * 4096) / s)
}

/// Linear interpolation between two noise samples by a fraction in
/// `[0, 4096)`.
fn lerp4096(a: u64, b: u64, f: i64) -> (r: u64)
    requires
        a < 4096,
        b < 4096,
        0 <= f < 4096,
    ensures
        r < 4096,
{
    let fa: u64 = (4096 - f) as u64;
    let fb: u64 = f as u64;
    proof {
        assert(a * fa + b * fb < 4096 * 4096) by (nonlinear_arith)
            requires
                a < 4096,
                b < 4096,
                fa <= 4096,
                fb < 4096,
                fa + fb == 4096,
        ;
    }
    let sum: u64 = a * fa + b * fb;
    proof {
        assert(sum >> 12 < 4096) by (bit_vector)
            requires
                sum < 0x1000000,
        ;
    }
    sum >> 12
}

impl NoiseGen {
    /// A 2D sample of the field at voxel coordinates (x, y).
    pub fn gen_2d(&self, x: i32, y: i32) -> (r: u64)
        requires
            self.scale_milli >= 1,
        ensures
            r < NOISE_ONE,
    {
        let (cx, fx) = noise_split(x, self.scale_milli);
        let (cy, fy) = noise_split(y, self.scale_milli);
        let h00 = lattice_hash(self.seed, cx, cy, 0);
        let h10 = lattice_hash(self.seed, cx + 1, cy, 0);
        let h01 = lattice_hash(self.seed, cx, cy + 1, 0);
        let h11 = lattice_hash(self.seed, cx + 1, cy + 1, 0);
        let v0 = lerp4096(h00, h10, fx);
        let v1 = lerp4096(h01, h11, fx);
        lerp4096(v0, v1, fy)
    }

    /// A 3D sample of the field at voxel coordinates (x, y, z).
    pub fn gen_3d(&self, x: i32, y: i32, z: i32) -> (r: u64)
        requires
            self.scale_milli >= 1,
        ensures
            r < NOISE_ONE,
    {
        let (cx, fx) = noise_split(x, self.scale_milli);
        let (cy, fy) = noise_split(y, self.scale_milli);
        let (cz, fz) = noise_split(z, self.scale_milli);
        let h000 = lattice_hash(self.seed, cx, cy, cz);
        let h100 = lattice_hash(self.seed, cx + 1, cy, cz);
        let h010 = lattice_hash(self.seed, cx, cy + 1, cz);
        let h110 = lattice_hash(self.seed, cx + 1, cy + 1, cz);
        let h001 = lattice_hash(self.seed, cx, cy, cz + 1);
        let h101 = lattice_hash(self.seed, cx + 1, cy, cz + 1);
        let h011 = lattice_hash(self.seed, cx, cy + 1, cz + 1);
        let h111 = lattice_hash(self.seed, cx + 1, cy + 1, cz + 1);
        let v00 = lerp4096(h000, h100, fx);
        let v10 = lerp4096(h010, h110, fx);
        let v01 = lerp4096(h001, h101, fx);
        let v11 = lerp4096(h011, h111, fx);
        let v0 = lerp4096(v00, v10, fy);
        let v1 = lerp4096(v01, v11, fy);
        lerp4096(v0, v1, fz)
    }
}

/// Builder for a noise field: a seed (usually drawn from a random
/// stream) and a spatial scale.
#[derive(Debug, Clone, Copy)]
pub struct NoiseGeneratorBuilder {
    pub seed: u32,
    pub scale_milli: u32,
}

impl NoiseGeneratorBuilder {
    pub fn seed(self, seed: u32) -> (r: NoiseGeneratorBuilder)
        ensures
            r.seed == seed,
            r.scale_milli == self.scale_milli,
    {
        NoiseGeneratorBuilder { seed, ..self }
    }

    /// Sets the lattice cell size, in thousandths of a voxel.
    pub fn scale_milli(self, scale_milli: u32) -> (r: NoiseGeneratorBuilder)
        ensures
            r.seed == self.seed,
            r.scale_milli == scale_milli,
    {
        NoiseGeneratorBuilder { scale_milli, ..self }
    }

    pub fn build(self) -> (r: NoiseGen)
        ensures
            r.seed == self.seed,
            r.scale_milli == if self.scale_milli >= 1 {
                self.scale_milli
            } else {
                1u32
            },
            r.scale_milli >= 1,
    {
        let scale_milli = if self.scale_milli >= 1 {
            self.scale_milli
        } else {
            1
        };
        NoiseGen { seed: self.seed, scale_milli }
    }
}

impl RNG {
    /// A noise-field builder seeded from one draw of this stream, at the
    /// default scale of one lattice cell per voxel.
    pub fn noise_field(&mut self) -> (r: NoiseGeneratorBuilder)
        ensures
            final(self).spec_seed() == old(self).spec_seed(),
            r.scale_milli == 1000,
    {
        let word = self.gen_u64();
        let seed: u32 = #[verifier::truncate] (word as u32);
        NoiseGeneratorBuilder { seed, scale_milli: 1000 }
    }
}

} // verus!
