//! The rendering driver: nearest-hit queries, the recursive shading
//! operation, tone mapping, and the per-pixel render loop.

use vstd::prelude::*;
use crate::camera::{Camera, camera_ray};
use crate::color::{Color, cmul, cdivs, csum};
use crate::fixed::{Fx, FX_ONE};
use crate::hitinfo::HitInfo;
use crate::light::{light_is_deterministic, light_post, light_value, lemma_light_post_unique};
use crate::material::{Diffuse, Materials, PerfectReflective};
use crate::raycast_info::RayCastInfo;
use crate::sampler::{in_unit_ball, sample_unit_ball};
use crate::scene::Scene;
use crate::scene_object::SceneObject;
use crate::shape::{shape_hit, HIT_EPS};
use crate::vec3::{Vec3, vadd, vscale, vreflect, vnormalize};

verus! {

/// The bounce limit: recursion through reflective materials stops once a
/// chain has cast more rays than this.
pub const REFLECTION_DEPTH_LIMIT: usize = 2;

/// The nearest acceptable hit among the first `n` objects, with the index
/// of its owning object.  A hit is acceptable when its distance exceeds
/// `HIT_EPS`; among equal distances the earliest object wins.
pub open spec fn scan_hit(objs: Seq<SceneObject>, origin: Vec3, dir: Vec3, n: int) -> Option<
    (HitInfo, int),
>
    decreases n,
{
    if n <= 0 {
        None
    } else {
        let prev = scan_hit(objs, origin, dir, n - 1);
        match shape_hit(objs[n - 1].shape, origin, dir) {
            Some(h) => if h.dist@ > HIT_EPS {
                match prev {
                    Some((hp, jp)) => if hp.dist@ <= h.dist@ {
                        prev
                    } else {
                        Some((h, n - 1))
                    },
                    None => Some((h, n - 1)),
                }
            } else {
                prev
            },
            None => prev,
        }
    }
}

/// The nearest acceptable hit over the whole object list.
pub open spec fn nearest_hit(objs: Seq<SceneObject>, origin: Vec3, dir: Vec3) -> Option<
    (HitInfo, int),
> {
    scan_hit(objs, origin, dir, objs.len() as int)
}

/// The nearest acceptable hit, without its owner.
pub open spec fn nearest_hit_info(objs: Seq<SceneObject>, origin: Vec3, dir: Vec3) -> Option<
    HitInfo,
> {
    match nearest_hit(objs, origin, dir) {
        Some((h, j)) => Some(h),
        None => None,
    }
}

/// Scans every object and returns the nearest acceptable hit together
/// with the index of the object that produced it.
pub fn raycast_return_ref(scene: &Scene, origin: Vec3, dir: Vec3) -> (r: Option<(HitInfo, usize)>)
    ensures
        match r {
            Some((h, j)) => nearest_hit(scene.objects@, origin, dir) == Some((h, j as int)),
            None => nearest_hit(scene.objects@, origin, dir) is None,
        },
{
    let eps = Fx::from_bits(HIT_EPS);
    let mut best: Option<(HitInfo, usize)> = None;
    let n = scene.objects.len();
    let mut i: usize = 0;
    while i < n
        invariant
            eps@ == HIT_EPS,
            n == scene.objects@.len(),
            i <= n,
            match best {
                Some((h, j)) => scan_hit(scene.objects@, origin, dir, i as int) == Some(
                    (h, j as int),
                ),
                None => scan_hit(scene.objects@, origin, dir, i as int) is None,
            },
        decreases n - i,
    {
        let hit = scene.objects[i].shape.intersect(origin, dir);
        match hit {
            Some(h) => {
                if eps.lt(h.dist) {
                    match best {
                        Some((hp, jp)) => {
                            if !hp.dist.le(h.dist) {
                                best = Some((h, i));
                            }
                        },
                        None => {
                            best = Some((h, i));
                        },
                    }
                }
            },
            None => {},
        }
        i = i + 1;
    }
    best
}

/// Whether object `k` yields an acceptable hit for this ray: one whose
/// distance exceeds `HIT_EPS`.
pub open spec fn valid_hit(objs: Seq<SceneObject>, origin: Vec3, dir: Vec3, k: int) -> bool {
    shape_hit(objs[k].shape, origin, dir) matches Some(h) && h.dist@ > HIT_EPS
}

/// The distance of object `k`'s hit; meaningful only when the hit exists.
pub open spec fn hit_dist(objs: Seq<SceneObject>, origin: Vec3, dir: Vec3, k: int) -> int {
    match shape_hit(objs[k].shape, origin, dir) {
        Some(h) => h.dist@,
        None => 0,
    }
}

/// The nearest-hit law: the scan returns an acceptable hit of the object
/// it names; no scanned object's acceptable hit is strictly nearer; and
/// every earlier object's acceptable hit is strictly farther, so among
/// equal distances the first-encountered object wins.  When the scan
/// returns nothing, no scanned object has an acceptable hit.
pub proof fn lemma_scan_hit_minimal(objs: Seq<SceneObject>, origin: Vec3, dir: Vec3, n: int)
    ensures
        match scan_hit(objs, origin, dir, n) {
            Some((h, j)) => {
                &&& 0 <= j < n
                &&& valid_hit(objs, origin, dir, j)
                &&& shape_hit(objs[j].shape, origin, dir) == Some(h)
                &&& forall|k: int|
                    0 <= k < n && #[trigger] valid_hit(objs, origin, dir, k) ==> hit_dist(
                        objs,
                        origin,
                        dir,
                        k,
                    ) >= h.dist@
                &&& forall|k: int|
                    0 <= k < j && #[trigger] valid_hit(objs, origin, dir, k) ==> hit_dist(
                        objs,
                        origin,
                        dir,
                        k,
                    ) > h.dist@
            },
            None => forall|k: int| 0 <= k < n ==> !#[trigger] valid_hit(objs, origin, dir, k),
        },
    decreases n,
{
    if n > 0 {
        lemma_scan_hit_minimal(objs, origin, dir, n - 1);
    }
}

/// A hit index returned by the scan lies within the scanned range.
pub proof fn lemma_scan_hit_index(objs: Seq<SceneObject>, origin: Vec3, dir: Vec3, n: int)
    ensures
        scan_hit(objs, origin, dir, n) matches Some((h, j)) ==> 0 <= j < n,
    decreases n,
{
    if n > 0 {
        lemma_scan_hit_index(objs, origin, dir, n - 1);
    }
}

/// How many more rays a chain that has cast `d` rays may still cast.
pub open spec fn depth_fuel(d: nat) -> nat {
    if d > REFLECTION_DEPTH_LIMIT + 1 {
        0
    } else {
        (REFLECTION_DEPTH_LIMIT + 2 - d) as nat
    }
}

/// The direction of one rough-mirror sample: the ideal mirror direction
/// perturbed by a unit-ball noise vector scaled by the roughness, then
/// renormalized.
pub open spec fn perturbed_dir(h: HitInfo, noise: Vec3, roughness: int) -> Vec3 {
    vnormalize(vadd(vreflect(h.incoming_dir, h.normal), vscale(noise, roughness)))
}

/// What the recursive shading returns for a ray cast from `origin` along
/// `dir` by a chain that has already cast `depth0` rays.
///
/// A ray that hits nothing reads the skylight.  A diffuse hit is the sum
/// of every light's contribution filtered by the albedo.  A mirror hit
/// past the bounce limit reads the skylight; within the limit it is the
/// recursively shaded mirror ray (tinted), or for a rough mirror the
/// average over `iteration` perturbed mirror rays, whatever unit-ball
/// perturbations the generator produced.
pub open spec fn shade_post(s: Scene, origin: Vec3, dir: Vec3, depth0: nat, r: Color) -> bool
    decreases depth_fuel(depth0),
{
    let d = depth0 + 1;
    match nearest_hit(s.objects@, origin, dir) {
        None => r == s.skylight,
        Some((h, idx)) => match s.objects@[idx].material {
            Materials::Diffuse(dm) => exists|cs: Seq<Color>|
                cs.len() == s.lights@.len() && (forall|k: int|
                    0 <= k < cs.len() ==> light_post(
                        s.lights@[k],
                        h.intersection,
                        h.normal,
                        s,
                        #[trigger] cs[k],
                    )) && r == cmul(csum(cs), dm.color),
            Materials::PerfectReflective(pm) => if d > REFLECTION_DEPTH_LIMIT {
                r == s.skylight
            } else {
                exists|c: Color|
                    shade_post(
                        s,
                        h.intersection,
                        vreflect(h.incoming_dir, h.normal),
                        d as nat,
                        c,
                    ) && r == #[trigger] cmul(c, pm.color)
            },
            Materials::Reflective(rm) => if d > REFLECTION_DEPTH_LIMIT {
                r == s.skylight
            } else {
                exists|ns: Seq<Vec3>, cs: Seq<Color>|
                    ns.len() == rm.iteration && cs.len() == rm.iteration && (forall|k: int|
                        0 <= k < ns.len() ==> in_unit_ball(#[trigger] ns[k])) && (forall|k: int|
                        0 <= k < cs.len() ==> shade_post(
                            s,
                            h.intersection,
                            perturbed_dir(h, ns[k], rm.roughness@),
                            d as nat,
                            #[trigger] cs[k],
                        )) && r == cdivs(csum(cs), (rm.iteration as int) * (FX_ONE as int))
            },
        },
    }
}

/// The bounce-limit law: a ray cast by a chain that has already used up
/// the bounce limit and that strikes a mirror — rough or perfect — reads
/// the scene's skylight colour exactly; the recursion never continues
/// past the limit.
pub proof fn lemma_bounce_limit_cutoff(
    s: Scene,
    origin: Vec3,
    dir: Vec3,
    depth0: nat,
    hit: HitInfo,
    idx: int,
    r: Color,
)
    requires
        shade_post(s, origin, dir, depth0, r),
        depth0 >= REFLECTION_DEPTH_LIMIT,
        nearest_hit(s.objects@, origin, dir) == Some((hit, idx)),
        (s.objects@[idx].material matches Materials::Reflective(rm)) || (s.objects@[idx].material
            matches Materials::PerfectReflective(pm)),
    ensures
        r == s.skylight,
{
    assert(depth0 + 1 > REFLECTION_DEPTH_LIMIT);
}

/// With only deterministic lights in the scene, the diffuse contract
/// pins the result exactly: whatever colour the shading admits for a
/// diffuse hit equals the sum of every light's closed-form value,
/// filtered by the albedo.
pub proof fn lemma_diffuse_shade_unique(
    s: Scene,
    origin: Vec3,
    dir: Vec3,
    depth0: nat,
    hit: HitInfo,
    idx: int,
    dm: Diffuse,
    r: Color,
)
    requires
        shade_post(s, origin, dir, depth0, r),
        nearest_hit(s.objects@, origin, dir) == Some((hit, idx)),
        s.objects@[idx].material == Materials::Diffuse(dm),
        forall|k: int| 0 <= k < s.lights@.len() ==> light_is_deterministic(#[trigger] s.lights@[k]),
    ensures
        r == cmul(
            csum(
                Seq::new(
                    s.lights@.len(),
                    |k: int| light_value(s.lights@[k], hit.intersection, hit.normal, s),
                ),
            ),
            dm.color,
        ),
{
    assert(s.objects@[idx].material matches Materials::Diffuse(dm2) && dm2 == dm);
    assert(exists|cs: Seq<Color>|
        cs.len() == s.lights@.len() && (forall|k: int|
            0 <= k < cs.len() ==> light_post(
                s.lights@[k],
                hit.intersection,
                hit.normal,
                s,
                #[trigger] cs[k],
            )) && r == cmul(csum(cs), dm.color));
    let cs = choose|cs: Seq<Color>|
        cs.len() == s.lights@.len() && (forall|k: int|
            0 <= k < cs.len() ==> light_post(
                s.lights@[k],
                hit.intersection,
                hit.normal,
                s,
                #[trigger] cs[k],
            )) && r == cmul(csum(cs), dm.color);
    let vals = Seq::new(
        s.lights@.len(),
        |k: int| light_value(s.lights@[k], hit.intersection, hit.normal, s),
    );
    assert forall|k: int| 0 <= k < cs.len() implies cs[k] == vals[k] by {
        lemma_light_post_unique(s.lights@[k], hit.intersection, hit.normal, s, cs[k]);
    };
    assert(cs =~= vals);
}

/// Folds one perfect-mirror step into the shading contract.
proof fn lemma_shade_perfect(
    s: Scene,
    origin: Vec3,
    dir: Vec3,
    depth0: nat,
    hit: HitInfo,
    idx: int,
    pm: PerfectReflective,
    c: Color,
    r: Color,
)
    requires
        nearest_hit(s.objects@, origin, dir) == Some((hit, idx)),
        s.objects@[idx].material == Materials::PerfectReflective(pm),
        depth0 + 1 <= REFLECTION_DEPTH_LIMIT,
        shade_post(s, hit.intersection, vreflect(hit.incoming_dir, hit.normal), (depth0 + 1) as nat, c),
        r == cmul(c, pm.color),
    ensures
        shade_post(s, origin, dir, depth0, r),
{
    assert(s.objects@[idx].material matches Materials::PerfectReflective(pm2) && pm2 == pm);
    assert(exists|c2: Color|
        shade_post(
            s,
            hit.intersection,
            vreflect(hit.incoming_dir, hit.normal),
            (depth0 + 1) as nat,
            c2,
        ) && r == #[trigger] cmul(c2, pm.color));
}

/// Casts a ray and shades whatever it hits, recursively tracing mirror
/// bounces with the chain's counter incremented at every cast.
pub fn raycast_compute_light(
    scene: &Scene,
    origin: Vec3,
    dir: Vec3,
    info: RayCastInfo,
    rng: &mut rand::rngs::StdRng,
) -> (r: Color)
    requires
        info.ray_number < usize::MAX,
    ensures
        shade_post(*scene, origin, dir, info.ray_number as nat, r),
    decreases depth_fuel(info.ray_number as nat),
{
    let ghost depth0 = info.ray_number as nat;
    let mut info2 = info;
    info2.increment_ray_number();
    match raycast_return_ref(scene, origin, dir) {
        None => scene.get_skylight(),
        Some((hit, idx)) => {
            proof {
                lemma_scan_hit_index(scene.objects@, origin, dir, scene.objects@.len() as int);
            }
            let m = scene.objects[idx].material;
            match m {
                Materials::Diffuse(dm) => {
                    let mut sum = Color::black();
                    let ghost mut cs: Seq<Color> = Seq::empty();
                    let nl = scene.lights.len();
                    let mut k: usize = 0;
                    while k < nl
                        invariant
                            nl == scene.lights@.len(),
                            k <= nl,
                            cs.len() == k as nat,
                            forall|t: int|
                                0 <= t < k ==> light_post(
                                    scene.lights@[t],
                                    hit.intersection,
                                    hit.normal,
                                    *scene,
                                    #[trigger] cs[t],
                                ),
                            sum == csum(cs),
                        decreases nl - k,
                    {
                        let c = scene.lights[k].illuminate(hit.intersection, hit.normal, scene, rng);
                        sum = sum.add(c);
                        proof {
                            let cs2 = cs.push(c);
                            assert(cs2.drop_last() =~= cs);
                            cs = cs2;
                        }
                        k = k + 1;
                    }
                    let r = sum.mul(dm.color);
                    proof {
                        assert(nearest_hit(scene.objects@, origin, dir) == Some((hit, idx as int)));
                        assert(scene.objects@[idx as int].material == Materials::Diffuse(dm));
                        assert(exists|cs2: Seq<Color>|
                            cs2.len() == scene.lights@.len() && (forall|t: int|
                                0 <= t < cs2.len() ==> light_post(
                                    scene.lights@[t],
                                    hit.intersection,
                                    hit.normal,
                                    *scene,
                                    #[trigger] cs2[t],
                                )) && r == cmul(csum(cs2), dm.color)) by {
                            assert(cs.len() == scene.lights@.len() && (forall|t: int|
                                0 <= t < cs.len() ==> light_post(
                                    scene.lights@[t],
                                    hit.intersection,
                                    hit.normal,
                                    *scene,
                                    #[trigger] cs[t],
                                )) && r == cmul(csum(cs), dm.color));
                        }
                    }
                    r
                },
                Materials::PerfectReflective(pm) => {
                    if info2.ray_depth() > REFLECTION_DEPTH_LIMIT {
                        scene.get_skylight()
                    } else {
                        let refl = hit.incoming_dir.reflect(hit.normal);
                        let c = raycast_compute_light(scene, hit.intersection, refl, info2, rng);
                        let r = c.mul(pm.color);
                        proof {
                            lemma_shade_perfect(*scene, origin, dir, depth0, hit, idx as int, pm, c, r);
                        }
                        r
                    }
                },
                Materials::Reflective(rm) => {
                    if info2.ray_depth() > REFLECTION_DEPTH_LIMIT {
                        scene.get_skylight()
                    } else {
                        let base = hit.incoming_dir.reflect(hit.normal);
                        let mut sum = Color::black();
                        let ghost mut ns: Seq<Vec3> = Seq::empty();
                        let ghost mut cs: Seq<Color> = Seq::empty();
                        let mut k: u32 = 0;
                        while k < rm.iteration
                            invariant
                                depth0 == info.ray_number as nat,
                                info2.ray_number == depth0 + 1,
                                depth0 + 1 <= REFLECTION_DEPTH_LIMIT,
                                base == vreflect(hit.incoming_dir, hit.normal),
                                k <= rm.iteration,
                                ns.len() == k as nat,
                                cs.len() == k as nat,
                                forall|t: int| 0 <= t < k ==> in_unit_ball(#[trigger] ns[t]),
                                forall|t: int|
                                    0 <= t < k ==> shade_post(
                                        *scene,
                                        hit.intersection,
                                        perturbed_dir(hit, ns[t], rm.roughness@),
                                        (depth0 + 1) as nat,
                                        #[trigger] cs[t],
                                    ),
                                sum == csum(cs),
                            decreases rm.iteration - k,
                        {
                            let noise = sample_unit_ball(rng);
                            let dir2 = base.add(noise.scale(rm.roughness)).normalize();
                            let c = raycast_compute_light(scene, hit.intersection, dir2, info2, rng);
                            sum = sum.add(c);
                            proof {
                                let ns2 = ns.push(noise);
                                let cs2 = cs.push(c);
                                assert(cs2.drop_last() =~= cs);
                                ns = ns2;
                                cs = cs2;
                            }
                            k = k + 1;
                        }
                        let r = sum.div_scalar(Fx::from_u32(rm.iteration));
                        proof {
                            assert(exists|ns2: Seq<Vec3>, cs2: Seq<Color>|
                                ns2.len() == rm.iteration && cs2.len() == rm.iteration && (forall|
                                    t: int,
                                |
                                    0 <= t < ns2.len() ==> in_unit_ball(#[trigger] ns2[t])) && (
                                forall|t: int|
                                    0 <= t < cs2.len() ==> shade_post(
                                        *scene,
                                        hit.intersection,
                                        perturbed_dir(hit, ns2[t], rm.roughness@),
                                        (depth0 + 1) as nat,
                                        #[trigger] cs2[t],
                                    )) && r == cdivs(
                                    csum(cs2),
                                    (rm.iteration as int) * (FX_ONE as int),
                                )) by {
                                assert(ns.len() == rm.iteration && cs.len() == rm.iteration && (
                                forall|t: int|
                                    0 <= t < ns.len() ==> in_unit_ball(#[trigger] ns[t])) && (forall|
                                    t: int,
                                |
                                    0 <= t < cs.len() ==> shade_post(
                                        *scene,
                                        hit.intersection,
                                        perturbed_dir(hit, ns[t], rm.roughness@),
                                        (depth0 + 1) as nat,
                                        #[trigger] cs[t],
                                    )) && r == cdivs(
                                    csum(cs),
                                    (rm.iteration as int) * (FX_ONE as int),
                                ));
                            }
                        }
                        r
                    }
                },
            }
        },
    }
}

/// Scans every object and returns the nearest acceptable hit.
pub fn raycast(scene: &Scene, origin: Vec3, dir: Vec3) -> (r: Option<HitInfo>)
    ensures
        r == nearest_hit_info(scene.objects@, origin, dir),
{
    match raycast_return_ref(scene, origin, dir) {
        Some((h, j)) => Some(h),
        None => None,
    }
}

/// Why a buffer could not be tone mapped: it was empty while a bound had
/// to be scanned for, or the resolved range was degenerate.
#[derive(Clone, Copy, PartialEq, Eq, Structural, Debug)]
pub enum ToneMapError {
    BlankImage,
    MonoColor,
}

/// The smallest channel of one colour.
pub open spec fn color_min(c: Color) -> int {
    let m = if c.g@ < c.r@ { c.g@ } else { c.r@ };
    if c.b@ < m { c.b@ } else { m }
}

/// The largest channel of one colour.
pub open spec fn color_max(c: Color) -> int {
    let m = if c.g@ > c.r@ { c.g@ } else { c.r@ };
    if c.b@ > m { c.b@ } else { m }
}

/// The smallest channel over a whole buffer (zero for an empty one).
pub open spec fn buf_min(buf: Seq<Color>) -> int
    decreases buf.len(),
{
    if buf.len() == 0 {
        0
    } else {
        let rest = buf_min(buf.drop_last());
        let lastm = color_min(buf.last());
        if buf.len() == 1 || lastm < rest {
            lastm
        } else {
            rest
        }
    }
}

/// The largest channel over a whole buffer (zero for an empty one).
pub open spec fn buf_max(buf: Seq<Color>) -> int
    decreases buf.len(),
{
    if buf.len() == 0 {
        0
    } else {
        let rest = buf_max(buf.drop_last());
        let lastm = color_max(buf.last());
        if buf.len() == 1 || lastm > rest {
            lastm
        } else {
            rest
        }
    }
}

/// One channel mapped linearly from `[lo, hi]` to `[0, 255]`: the value
/// `255 (v - lo) / (hi - lo)` rounded half-up and clamped, stated with
/// the floor division `(2 * 255 * (v - lo) + (hi - lo)) / (2 * (hi - lo))`.
pub open spec fn tone_channel(v: int, lo: int, hi: int) -> int {
    let q = ((v - lo) * 255 * 2 + (hi - lo)) / (2 * (hi - lo));
    if q < 0 {
        0
    } else if q > 255 {
        255
    } else {
        q
    }
}

/// The tone map's endpoint law: for every non-degenerate range, the
/// lower bound maps to 0 and the upper bound maps to 255.
pub proof fn lemma_tone_endpoints(lo: int, hi: int)
    requires
        lo < hi,
    ensures
        tone_channel(lo, lo, hi) == 0,
        tone_channel(hi, lo, hi) == 255,
{
    let d = hi - lo;
    assert(d == 0 * (2 * d) + d) by (nonlinear_arith);
    vstd::arithmetic::div_mod::lemma_fundamental_div_mod_converse(d, 2 * d, 0, d);
    assert(511 * d == 255 * (2 * d) + d) by (nonlinear_arith);
    vstd::arithmetic::div_mod::lemma_fundamental_div_mod_converse(511 * d, 2 * d, 255, d);
}

/// One pixel tone mapped channel by channel.
pub open spec fn tone_pixel(c: Color, lo: int, hi: int) -> (u8, u8, u8) {
    (
        tone_channel(c.r@, lo, hi) as u8,
        tone_channel(c.g@, lo, hi) as u8,
        tone_channel(c.b@, lo, hi) as u8,
    )
}

/// A whole buffer tone mapped.
pub open spec fn tone_map_seq(buf: Seq<Color>, lo: int, hi: int) -> Seq<(u8, u8, u8)> {
    buf.map_values(|c: Color| tone_pixel(c, lo, hi))
}

/// The lower bound used by the tone map: the given one, or the buffer scan.
pub open spec fn resolved_min(buf: Seq<Color>, vmin: Option<int>) -> int {
    match vmin {
        Some(m) => m,
        None => buf_min(buf),
    }
}

/// The upper bound used by the tone map: the given one, or the buffer scan.
pub open spec fn resolved_max(buf: Seq<Color>, vmax: Option<int>) -> int {
    match vmax {
        Some(m) => m,
        None => buf_max(buf),
    }
}

/// What tone mapping yields: an error for an empty buffer whose bounds
/// would have to be scanned, an error for a degenerate range, else every
/// pixel mapped linearly into the byte range.
pub open spec fn color_map_spec(buf: Seq<Color>, vmin: Option<int>, vmax: Option<int>) -> Result<
    Seq<(u8, u8, u8)>,
    ToneMapError,
> {
    if buf.len() == 0 && (vmin is None || vmax is None) {
        Err(ToneMapError::BlankImage)
    } else {
        let lo = resolved_min(buf, vmin);
        let hi = resolved_max(buf, vmax);
        if hi <= lo {
            Err(ToneMapError::MonoColor)
        } else {
            Ok(tone_map_seq(buf, lo, hi))
        }
    }
}

/// The bit pattern of an optional bound.
pub open spec fn opt_bits(o: Option<Fx>) -> Option<int> {
    match o {
        Some(f) => Some(f@),
        None => None,
    }
}

/// The smallest and largest channel over the buffer, by one scan.
fn scan_bounds(buf: &Vec<Color>) -> (r: (i64, i64))
    requires
        buf@.len() > 0,
    ensures
        r.0 as int == buf_min(buf@),
        r.1 as int == buf_max(buf@),
{
    let first = buf[0];
    let mut mn: i64 = first.r.bits;
    let mut mx: i64 = first.r.bits;
    if first.g.bits < mn {
        mn = first.g.bits;
    }
    if first.b.bits < mn {
        mn = first.b.bits;
    }
    if first.g.bits > mx {
        mx = first.g.bits;
    }
    if first.b.bits > mx {
        mx = first.b.bits;
    }
    assert(buf@.subrange(0, 1).drop_last() =~= buf@.subrange(0, 0));
    assert(buf@.subrange(0, 1).last() == buf@[0]);
    let mut i: usize = 1;
    while i < buf.len()
        invariant
            1 <= i <= buf@.len(),
            mn as int == buf_min(buf@.subrange(0, i as int)),
            mx as int == buf_max(buf@.subrange(0, i as int)),
        decreases buf@.len() - i,
    {
        let c = buf[i];
        proof {
            assert(buf@.subrange(0, i as int + 1).drop_last() =~= buf@.subrange(0, i as int));
            assert(buf@.subrange(0, i as int + 1).last() == buf@[i as int]);
        }
        if c.r.bits < mn {
            mn = c.r.bits;
        }
        if c.g.bits < mn {
            mn = c.g.bits;
        }
        if c.b.bits < mn {
            mn = c.b.bits;
        }
        if c.r.bits > mx {
            mx = c.r.bits;
        }
        if c.g.bits > mx {
            mx = c.g.bits;
        }
        if c.b.bits > mx {
            mx = c.b.bits;
        }
        i = i + 1;
    }
    proof {
        assert(buf@.subrange(0, buf@.len() as int) =~= buf@);
    }
    (mn, mx)
}

/// One channel tone mapped into a byte.
fn tone_channel_exec(v: i64, lo: i64, hi: i64) -> (r: u8)
    requires
        lo < hi,
    ensures
        r as int == tone_channel(v as int, lo as int, hi as int),
{
    let num: i128 = ((v as i128) - (lo as i128)) * 255 * 2 + ((hi as i128) - (lo as i128));
    let den: i128 = 2 * ((hi as i128) - (lo as i128));
    proof {
        assert(den > 0);
        assert(num >= 0 ==> 0 <= num as int / den as int <= num) by (nonlinear_arith)
            requires den > 0;
        assert(num < 0 ==> num <= num as int / den as int <= 0) by (nonlinear_arith)
            requires den > 0;
    }
    let q = match num.checked_div_euclid(den) {
        Some(q) => q,
        None => {
            proof {
                assert(false);
            }
            0
        },
    };
    if q < 0 {
        0
    } else if q > 255 {
        255
    } else {
        q as u8
    }
}

/// Maps a floating buffer of radiance into displayable bytes: every
/// channel goes linearly from the resolved `[min, max]` range to
/// `[0, 255]`, rounded half-up and clamped.  A bound not supplied is
/// scanned from the buffer; an empty buffer with a missing bound, or a
/// resolved range with `max <= min`, cannot be mapped and is an error.
pub fn color_map(buf: &Vec<Color>, vmin: Option<Fx>, vmax: Option<Fx>) -> (r: Result<
    Vec<(u8, u8, u8)>,
    ToneMapError,
>)
    ensures
        match r {
            Ok(out) => color_map_spec(buf@, opt_bits(vmin), opt_bits(vmax)) == Ok::<
                Seq<(u8, u8, u8)>,
                ToneMapError,
            >(out@),
            Err(e) => color_map_spec(buf@, opt_bits(vmin), opt_bits(vmax)) == Err::<
                Seq<(u8, u8, u8)>,
                ToneMapError,
            >(e),
        },
{
    let need_scan = vmin.is_none() || vmax.is_none();
    if buf.len() == 0 && need_scan {
        return Err(ToneMapError::BlankImage);
    }
    let (smin, smax) = if buf.len() > 0 {
        scan_bounds(buf)
    } else {
        (0, 0)
    };
    let lo = match vmin {
        Some(f) => f.bits,
        None => smin,
    };
    let hi = match vmax {
        Some(f) => f.bits,
        None => smax,
    };
    if hi <= lo {
        return Err(ToneMapError::MonoColor);
    }
    let mut out: Vec<(u8, u8, u8)> = Vec::new();
    let mut i: usize = 0;
    while i < buf.len()
        invariant
            i <= buf@.len(),
            lo < hi,
            out@.len() == i,
            forall|k: int|
                0 <= k < i ==> out@[k] == tone_pixel(buf@[k], lo as int, hi as int),
        decreases buf@.len() - i,
    {
        let c = buf[i];
        let p = (
            tone_channel_exec(c.r.bits, lo, hi),
            tone_channel_exec(c.g.bits, lo, hi),
            tone_channel_exec(c.b.bits, lo, hi),
        );
        out.push(p);
        i = i + 1;
    }
    proof {
        assert(out@ =~= tone_map_seq(buf@, lo as int, hi as int));
    }
    Ok(out)
}

/// A finished raster: square, row-major, 8-bit RGB, origin top-left.
pub struct RenderImage {
    pub size: u32,
    pub pixels: Vec<(u8, u8, u8)>,
}

/// What one pixel buffer of a render holds: for every pixel, a colour
/// that the recursive shading could return for the camera ray through it,
/// with a fresh chain counter.
pub open spec fn pixel_buffer_post(
    s: Scene,
    cam: Camera,
    image_size: int,
    upp: int,
    buf: Seq<Color>,
) -> bool {
    &&& buf.len() == image_size * image_size
    &&& forall|p: int|
        0 <= p < buf.len() ==> shade_post(
            s,
            cam.pos,
            camera_ray(cam, p % image_size, p / image_size, upp, image_size / 2, image_size / 2),
            0,
            #[trigger] buf[p],
        )
}

/// Renders the scene: casts one ray per pixel through the camera, shades
/// it recursively, and tone maps the resulting radiance buffer with a
/// fixed lower bound of zero and a scanned upper bound.
pub fn render(
    scene: &Scene,
    camera: &Camera,
    image_size: u32,
    unit_per_pixel: Fx,
    rng: &mut rand::rngs::StdRng,
) -> (r: Result<RenderImage, ToneMapError>)
    requires
        (image_size as int) * (image_size as int) <= usize::MAX,
    ensures
        exists|buf: Seq<Color>|
            #[trigger] pixel_buffer_post(*scene, *camera, image_size as int, unit_per_pixel@, buf)
                && (match r {
                Ok(img) => img.size == image_size && color_map_spec(buf, Some(0), None) == Ok::<
                    Seq<(u8, u8, u8)>,
                    ToneMapError,
                >(img.pixels@),
                Err(e) => color_map_spec(buf, Some(0), None) == Err::<
                    Seq<(u8, u8, u8)>,
                    ToneMapError,
                >(e),
            }),
{
    let count: usize = (image_size as usize) * (image_size as usize);
    let half: u32 = image_size / 2;
    let mut fbuf: Vec<Color> = Vec::new();
    let mut p: usize = 0;
    while p < count
        invariant
            count == (image_size as int) * (image_size as int),
            count <= usize::MAX,
            half == image_size as int / 2,
            p <= count,
            fbuf@.len() == p,
            forall|t: int|
                0 <= t < p ==> shade_post(
                    *scene,
                    camera.pos,
                    camera_ray(
                        *camera,
                        t % (image_size as int),
                        t / (image_size as int),
                        unit_per_pixel@,
                        image_size as int / 2,
                        image_size as int / 2,
                    ),
                    0,
                    #[trigger] fbuf@[t],
                ),
        decreases count - p,
    {
        proof {
            assert(image_size > 0) by {
                assert(count > p >= 0);
            };
            assert((p as int) % (image_size as int) < image_size as int);
            assert((p as int) / (image_size as int) < image_size as int) by (nonlinear_arith)
                requires
                    0 <= p as int,
                    0 < image_size as int,
                    (p as int) < (image_size as int) * (image_size as int);
        }
        let px: u32 = (p % (image_size as usize)) as u32;
        let py: u32 = (p / (image_size as usize)) as u32;
        let ray = camera.ray_at_pixel_position(px, py, unit_per_pixel, half, half);
        let info = RayCastInfo::new();
        let c = raycast_compute_light(scene, camera.pos, ray, info, rng);
        fbuf.push(c);
        p = p + 1;
    }
    let mapped = color_map(&fbuf, Some(Fx::zero()), None);
    match mapped {
        Ok(out) => {
            let img = RenderImage { size: image_size, pixels: out };
            proof {
                assert(pixel_buffer_post(
                    *scene,
                    *camera,
                    image_size as int,
                    unit_per_pixel@,
                    fbuf@,
                ));
            }
            Ok(img)
        },
        Err(e) => {
            proof {
                assert(pixel_buffer_post(
                    *scene,
                    *camera,
                    image_size as int,
                    unit_per_pixel@,
                    fbuf@,
                ));
            }
            Err(e)
        },
    }
}

} // verus!
