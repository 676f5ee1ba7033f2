use vstd::prelude::*;
use crate::ivec3::IVec3;
use crate::mathx::cos_milli;
use crate::mathx::sin_milli;
use crate::paint::GenContext;
use crate::scene2::Group;
use crate::scene2::Scene2;

verus! {

/// A stand of bare maples: several trunks grown by [`super::bare_tree::bare_tree`]
/// and placed on a ring of random radius and angle around the center.
pub fn maple(ctx: &GenContext, scene: &mut Scene2) -> (r: Group)
    requires
        old(scene).terrain.wf(),
    ensures
        final(scene).terrain.wf(),
        r.objects@.len() <= 8,
{
    let mut rng = ctx.make_rng();
    let mut group = Group::new();
    let mut i: u32 = 0;
    while i < 8
        invariant
            scene.terrain.wf(),
            i <= 8,
            group.objects@.len() <= i,
        decreases 8 - i,
    {
        let angle = rng.range(0, 360);
        let radius = (rng.range(16, 49) * 5) / 4;
        let ca = cos_milli(angle);
        let sa = sin_milli(angle);
        proof {
            assert(-60_000 <= radius * ca <= 60_000 && -60_000 <= radius * sa <= 60_000)
                by (nonlinear_arith)
                requires
                    0 <= radius <= 60,
                    -1000 <= ca <= 1000,
                    -1000 <= sa <= 1000,
            ;
        }
        let x = ((radius * ca) / 1000) as i32;
        let y = ((radius * sa) / 1000) as i32;
        let seed = rng.seed8();
        let sub = ctx.fork("trunk", seed).with_center(IVec3::new(x, y, 0));
        let trunk = super::bare_tree::bare_tree(&sub, scene);
        group.push_set(&sub, trunk);
        i += 1;
    }
    group
}

} // verus!
