use vstd::prelude::*;
use crate::ivec3::IVec3;
use crate::rng::RNG;
use crate::voxel_model::VoxelModel;

verus! {

/// The opaque parameter bag a generation context carries: every field a
/// generator may read, each optional so absent parameters fall back to
/// the generator's defaults.
#[derive(Debug)]
pub struct GenParams {
    /// Bounds (inclusive) for how many objects a cluster pass places.
    pub count: Option<(u64, u64)>,
    /// Half-extent of the square a cluster pass draws candidates from.
    pub range: Option<i32>,
    /// Minimum squared planar distance between placed objects.
    pub closest_distance2: Option<u64>,
    /// Weighted sub-generator choices of a cluster pass.
    pub generators: Option<Vec<(u32, String)>>,
    /// Whether placed objects snap onto the terrain surface.
    pub drop_to_ground: Option<bool>,
    /// Ground material family of a terrain pass.
    pub ground_type: Option<String>,
    /// Fixed recoloring of a sprite-derived model.
    pub color: Option<(u8, u8, u8)>,
}

impl GenParams {
    /// The empty parameter bag: every generator uses its defaults.
    pub fn none() -> (r: GenParams)
        ensures
            r.count is None,
            r.range is None,
            r.closest_distance2 is None,
            r.generators is None,
            r.drop_to_ground is None,
            r.ground_type is None,
            r.color is None,
    {
        GenParams {
            count: None,
            range: None,
            closest_distance2: None,
            generators: None,
            drop_to_ground: None,
            ground_type: None,
            color: None,
        }
    }
}

/// Equality of parameter bags up to storage: every field agrees, the
/// weighted generator list compared by contents.
pub open spec fn params_equiv(a: GenParams, b: GenParams) -> bool {
    &&& a.count == b.count
    &&& a.range == b.range
    &&& a.closest_distance2 == b.closest_distance2
    &&& (a.generators is Some <==> b.generators is Some)
    &&& (a.generators matches Some(g) ==> b.generators matches Some(h) && g@ == h@)
    &&& a.drop_to_ground == b.drop_to_ground
    &&& a.ground_type == b.ground_type
    &&& a.color == b.color
}

impl Clone for GenParams {
    fn clone(&self) -> (r: GenParams)
        ensures
            params_equiv(r, *self),
    {
        let generators = match &self.generators {
            Some(g) => Some(clone_weighted_names(g)),
            None => None,
        };
        GenParams {
            count: self.count,
            range: self.range,
            closest_distance2: self.closest_distance2,
            generators,
            drop_to_ground: self.drop_to_ground,
            ground_type: match &self.ground_type {
                Some(s) => Some(s.clone()),
                None => None,
            },
            color: self.color,
        }
    }
}

/// An exact copy of a weighted generator-name list.
fn clone_weighted_names(v: &Vec<(u32, String)>) -> (r: Vec<(u32, String)>)
    ensures
        r@ == v@,
{
    let mut out: Vec<(u32, String)> = Vec::new();
    let n = v.len();
    let mut i: usize = 0;
    while i < n
        invariant
            n == v@.len(),
            i <= n,
            out@.len() == i,
            forall|j: int| 0 <= j < i ==> #[trigger] out@[j] == v@[j],
        decreases n - i,
    {
        let (w, name) = &v[i];
        out.push((*w, name.clone()));
        i += 1;
    }
    proof {
        assert(out@ =~= v@);
    }
    out
}

/// A finished model paired with where it stands in the world.
#[derive(Debug)]
pub struct Model {
    pub model: VoxelModel,
    pub position: IVec3,
}

/// The per-invocation record a generator receives: its identity, the
/// seed all of its randomness flows from, the world-space center it
/// builds around, and the parameter bag.  Immutable per invocation;
/// sub-generators receive deterministic forks.
#[derive(Debug)]
pub struct GenContext {
    pub generator: String,
    pub seed: u64,
    pub center: IVec3,
    pub params: GenParams,
}

impl GenContext {
    pub fn new(generator: &str, seed: u64) -> (r: GenContext)
        ensures
            r.generator@ == generator@,
            r.seed == seed,
            r.center == (IVec3 { x: 0, y: 0, z: 0 }),
    {
        GenContext {
            generator: generator.to_owned(),
            seed,
            center: IVec3::new(0, 0, 0),
            params: GenParams::none(),
        }
    }

    /// A child context for a sub-generator: a new identity and seed, the
    /// same center and parameters.
    pub fn fork(&self, generator: &str, seed: u64) -> (r: GenContext)
        ensures
            r.generator@ == generator@,
            r.seed == seed,
            r.center == self.center,
            params_equiv(r.params, self.params),
    {
        GenContext {
            generator: generator.to_owned(),
            seed,
            center: self.center,
            params: self.params.clone(),
        }
    }

    /// This context with another parameter bag.
    pub fn with_params(self, params: GenParams) -> (r: GenContext)
        ensures
            r.generator == self.generator,
            r.seed == self.seed,
            r.center == self.center,
            r.params == params,
    {
        GenContext { params, ..self }
    }

    /// This context centered somewhere else.
    pub fn with_center(self, center: IVec3) -> (r: GenContext)
        ensures
            r.generator == self.generator,
            r.seed == self.seed,
            r.center == center,
    {
        GenContext { center, ..self }
    }

    /// The random stream every draw of this invocation flows from.
    pub fn make_rng(&self) -> (r: RNG)
        ensures
            r.spec_seed() == self.seed,
            r.spec_trace() == Seq::<(int, int, int)>::empty(),
    {
        RNG::new(self.seed)
    }
}

/// Relies on line_drawing's `Bresenham3d`: the voxel line from `p` to
/// `q` includes both endpoints, steps each coordinate monotonically by
/// at most one per emitted voxel, and emits one voxel per step of the
/// longest axis.
#[verifier::external_body]
pub fn bresenham3d(p: IVec3, q: IVec3) -> (r: Vec<IVec3>)
    requires
        -0x2000_0000 <= p.x <= 0x2000_0000 && -0x2000_0000 <= p.y <= 0x2000_0000
            && -0x2000_0000 <= p.z <= 0x2000_0000,
        -0x2000_0000 <= q.x <= 0x2000_0000 && -0x2000_0000 <= q.y <= 0x2000_0000
            && -0x2000_0000 <= q.z <= 0x2000_0000,
    ensures
        r@.len() >= 1,
        r@[0] == p,
        r@.last() == q,
        forall|i: int|
            0 <= i < r@.len() ==> {
                let v = #[trigger] r@[i];
                &&& (if p.x <= q.x {
                    p.x <= v.x <= q.x
                } else {
                    q.x <= v.x <= p.x
                })
                &&& (if p.y <= q.y {
                    p.y <= v.y <= q.y
                } else {
                    q.y <= v.y <= p.y
                })
                &&& (if p.z <= q.z {
                    p.z <= v.z <= q.z
                } else {
                    q.z <= v.z <= p.z
                })
            },
        forall|i: int|
            0 <= i < r@.len() - 1 ==> {
                let a = #[trigger] r@[i];
                let b = r@[i + 1];
                &&& -1 <= b.x - a.x <= 1
                &&& -1 <= b.y - a.y <= 1
                &&& -1 <= b.z - a.z <= 1
            },
{
    let mut v = Vec::new();
    for (x, y, z) in line_drawing::Bresenham3d::new((p.x, p.y, p.z), (q.x, q.y, q.z)) {
        v.push(IVec3 { x, y, z });
    }
    v
}

} // verus!
