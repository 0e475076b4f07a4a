//! Light sources: point, directional, and area lights.
//!
//! `illuminate` yields the radiance arriving at a surface point from one
//! light, attenuated by visibility (a shadow ray towards the scene) and
//! by the surface orientation, but not yet by the receiving material's
//! albedo.  A surface facing away from a light, or in shadow, reads the
//! scene's skylight colour rather than black — a deliberate artistic
//! choice of this renderer, not a physical quantity.

use vstd::prelude::*;
use crate::color::{Color, c3, cadd, cscale, cdivs, csum};
use crate::fixed::{Fx, FX_ONE, fx_add, fx_mul, fx_div, sat64};
use crate::renderer::{nearest_hit_info, raycast};
use crate::sampler::sample_pm1;
use crate::scene::Scene;
use crate::vec3::{Vec3, vadd, vsub, vneg, vdot, vscale, vmag, vnormalize};

verus! {

/// A shadow ray may stop this much (about 1e-4) short of the lit point
/// and still count as reaching it.
pub const SHADOW_EPS: i64 = 1678;

/// A light radiating from a single position, with inverse-square falloff.
#[derive(Clone, Copy, PartialEq, Eq, Structural, Debug)]
pub struct PointLight {
    pub pos: Vec3,
    pub light: Color,
}

/// A light of fixed direction and intensity, without distance falloff.
#[derive(Clone, Copy, PartialEq, Eq, Structural, Debug)]
pub struct DirectionalLight {
    pub dir: Vec3,
    pub light: Color,
}

/// How an area light integrates over its patch: by uniform random
/// samples, or over a fixed regular grid.
#[derive(Clone, Copy, PartialEq, Eq, Structural, Debug)]
pub enum AreaSampling {
    Stochastic { samples: u16 },
    FiniteDiff { half: u8 },
}

/// A flat square patch of light, placed by a similarity transform given
/// as the patch center, the two rotated in-plane axes and a uniform
/// scale.  Each sample behaves as a point light at the sampled position.
#[derive(Clone, Copy, PartialEq, Eq, Structural, Debug)]
pub struct AreaLight {
    pub center: Vec3,
    pub axis_y: Vec3,
    pub axis_z: Vec3,
    pub scaling: Fx,
    pub light: Color,
    pub sampling: AreaSampling,
}

/// The closed set of light variants.
#[derive(Clone, Copy, PartialEq, Eq, Structural, Debug)]
pub enum Lights {
    PointLight(PointLight),
    DirectionalLight(DirectionalLight),
    AreaLight(AreaLight),
}

/// Radiance a point light at `lpos` sends to `pos` with surface normal
/// `norm`: the skylight when the surface faces away or the shadow ray is
/// blocked, else the intensity with inverse-square falloff scaled by the
/// cosine attenuation.
#[verifier::opaque]
pub open spec fn point_light_at(lpos: Vec3, lcol: Color, pos: Vec3, norm: Vec3, s: Scene) -> Color {
    let diff = vsub(pos, lpos);
    let dist_to_obj = vmag(diff);
    let dir_to_obj = vnormalize(diff);
    let norm_attune = sat64(-vdot(norm, dir_to_obj));
    if norm_attune <= 0 {
        s.skylight
    } else {
        match nearest_hit_info(s.objects@, lpos, dir_to_obj) {
            None => s.skylight,
            Some(hit) => if fx_add(hit.dist@, SHADOW_EPS as int) < dist_to_obj {
                s.skylight
            } else {
                cscale(cdivs(lcol, fx_mul(dist_to_obj, dist_to_obj)), norm_attune)
            },
        }
    }
}

/// Radiance a directional light sends to a surface: as the point light,
/// but with a fixed direction and no distance falloff.
#[verifier::opaque]
pub open spec fn directional_light_at(ldir: Vec3, lcol: Color, pos: Vec3, norm: Vec3, s: Scene) -> Color {
    let norm_attune = sat64(-vdot(norm, ldir));
    if norm_attune <= 0 {
        s.skylight
    } else {
        match nearest_hit_info(s.objects@, pos, vneg(ldir)) {
            None => cscale(lcol, norm_attune),
            Some(hit) => s.skylight,
        }
    }
}

/// The world-space position of the local patch point `(0, u, v)`:
/// `center + scaling * (u * axis_y + v * axis_z)`.
pub open spec fn area_point(l: AreaLight, u: int, v: int) -> Vec3 {
    vadd(l.center, vscale(vadd(vscale(l.axis_y, u), vscale(l.axis_z, v)), l.scaling@))
}

/// Whether a bit pattern lies within [-1, 1].
pub open spec fn pm1(u: int) -> bool {
    -(FX_ONE as int) <= u <= FX_ONE as int
}

/// The number of grid cells per side for grid half-width `half`.
pub open spec fn fd_side(half: int) -> int {
    2 * half + 1
}

/// The grid sample with flattened index `k`: local coordinates
/// `(i / half, j / half)` for `i, j` ranging over `-half ..= half`.
pub open spec fn fd_cell(l: AreaLight, pos: Vec3, norm: Vec3, s: Scene, half: int, k: int) -> Color {
    let i = k / fd_side(half) - half;
    let j = k % fd_side(half) - half;
    let u = fx_div(i * (FX_ONE as int), half * (FX_ONE as int));
    let v = fx_div(j * (FX_ONE as int), half * (FX_ONE as int));
    point_light_at(area_point(l, u, v), l.light, pos, norm, s)
}

/// The sum of the first `n` grid samples.
pub open spec fn fd_sum(l: AreaLight, pos: Vec3, norm: Vec3, s: Scene, half: int, n: nat) -> Color
    decreases n,
{
    if n == 0 {
        c3(0, 0, 0)
    } else {
        cadd(fd_sum(l, pos, norm, s, half, (n - 1) as nat), fd_cell(l, pos, norm, s, half, n - 1))
    }
}

/// Grid-sampled area illumination: the average of the point-light
/// contribution over the whole `(2 half + 1)^2` grid.
pub open spec fn area_fd_light_at(l: AreaLight, pos: Vec3, norm: Vec3, s: Scene, half: int) -> Color {
    let count = fd_side(half) * fd_side(half);
    cdivs(fd_sum(l, pos, norm, s, half, count as nat), count * (FX_ONE as int))
}

/// Whether `c` is the point-light contribution of some patch point with
/// local coordinates in [-1, 1] squared.
pub open spec fn area_sample_color(l: AreaLight, pos: Vec3, norm: Vec3, s: Scene, c: Color) -> bool {
    exists|u: int, v: int|
        pm1(u) && pm1(v) && c == point_light_at(area_point(l, u, v), l.light, pos, norm, s)
}

/// What holds of a stochastic area-light result: it is the average of
/// `k` patch samples, whatever points the generator produced.
pub open spec fn area_mc_post(l: AreaLight, pos: Vec3, norm: Vec3, s: Scene, k: nat, c: Color) -> bool {
    exists|cs: Seq<Color>|
        cs.len() == k && (forall|i: int|
            0 <= i < k ==> area_sample_color(l, pos, norm, s, #[trigger] cs[i])) && c == cdivs(
            csum(cs),
            k * (FX_ONE as int),
        )
}

/// Whether a light's illumination is a closed-form value: every light
/// except a stochastically sampled area light.
pub open spec fn light_is_deterministic(l: Lights) -> bool {
    match l {
        Lights::AreaLight(al) => match al.sampling {
            AreaSampling::Stochastic { samples } => false,
            AreaSampling::FiniteDiff { half } => true,
        },
        Lights::PointLight(pl) => true,
        Lights::DirectionalLight(dl) => true,
    }
}

/// The closed-form radiance of a deterministic light; black for the
/// stochastic case, which has no closed form.
pub open spec fn light_value(l: Lights, pos: Vec3, norm: Vec3, s: Scene) -> Color {
    match l {
        Lights::PointLight(pl) => point_light_at(pl.pos, pl.light, pos, norm, s),
        Lights::DirectionalLight(dl) => directional_light_at(dl.dir, dl.light, pos, norm, s),
        Lights::AreaLight(al) => match al.sampling {
            AreaSampling::FiniteDiff { half } => area_fd_light_at(al, pos, norm, s, half as int),
            AreaSampling::Stochastic { samples } => c3(0, 0, 0),
        },
    }
}

/// A deterministic light admits exactly one illumination value.
pub proof fn lemma_light_post_unique(l: Lights, pos: Vec3, norm: Vec3, s: Scene, c: Color)
    requires
        light_is_deterministic(l),
        light_post(l, pos, norm, s, c),
    ensures
        c == light_value(l, pos, norm, s),
{
}

/// What a light's `illuminate` returns: exactly the closed-form radiance
/// for the deterministic lights, and an average over admissible samples
/// for a stochastic area light.
pub open spec fn light_post(l: Lights, pos: Vec3, norm: Vec3, s: Scene, c: Color) -> bool {
    match l {
        Lights::PointLight(pl) => c == point_light_at(pl.pos, pl.light, pos, norm, s),
        Lights::DirectionalLight(dl) => c == directional_light_at(dl.dir, dl.light, pos, norm, s),
        Lights::AreaLight(al) => match al.sampling {
            AreaSampling::FiniteDiff { half } => c == area_fd_light_at(al, pos, norm, s, half as int),
            AreaSampling::Stochastic { samples } => area_mc_post(al, pos, norm, s, samples as nat, c),
        },
    }
}

impl PointLight {
    /// A point light with the given position and intensity.
    pub fn new(pos: Vec3, light: Color) -> (l: PointLight)
        ensures
            l.pos == pos,
            l.light == light,
    {
        PointLight { pos, light }
    }
}

impl DirectionalLight {
    /// A directional light with the given direction and intensity.
    pub fn new(dir: Vec3, light: Color) -> (l: DirectionalLight)
        ensures
            l.dir == dir,
            l.light == light,
    {
        DirectionalLight { dir, light }
    }
}

impl AreaLight {
    /// An area light from its placement and intensity; a missing
    /// intensity defaults to white.
    pub fn new(
        center: Vec3,
        axis_y: Vec3,
        axis_z: Vec3,
        scaling: Fx,
        light: Option<Color>,
        sampling: AreaSampling,
    ) -> (l: AreaLight)
        ensures
            l.center == center,
            l.axis_y == axis_y,
            l.axis_z == axis_z,
            l.scaling == scaling,
            l.light == (match light {
                Some(c) => c,
                None => c3(FX_ONE as int, FX_ONE as int, FX_ONE as int),
            }),
            l.sampling == sampling,
    {
        let col = match light {
            Some(c) => c,
            None => Color::new(Fx::one(), Fx::one(), Fx::one()),
        };
        AreaLight { center, axis_y, axis_z, scaling, light: col, sampling }
    }

    /// The world-space patch point for local coordinates `(u, v)`.
    fn transform_point(&self, u: Fx, v: Fx) -> (p: Vec3)
        ensures
            p == area_point(*self, u@, v@),
    {
        self.center.add(self.axis_y.scale(u).add(self.axis_z.scale(v)).scale(self.scaling))
    }

    /// Stochastic integration: the average of `samples` uniform patch
    /// samples, each shaded as a point light.
    fn illuminate_stochastic(
        &self,
        samples: u16,
        pos: Vec3,
        norm: Vec3,
        scene: &Scene,
        rng: &mut rand::rngs::StdRng,
    ) -> (c: Color)
        ensures
            area_mc_post(*self, pos, norm, *scene, samples as nat, c),
    {
        let mut sum = Color::black();
        let ghost mut cs: Seq<Color> = Seq::empty();
        let mut k: u16 = 0;
        while k < samples
            invariant
                k <= samples,
                cs.len() == k as nat,
                forall|i: int| 0 <= i < k ==> area_sample_color(*self, pos, norm, *scene, #[trigger] cs[i]),
                sum == csum(cs),
            decreases samples - k,
        {
            let u = sample_pm1(rng);
            let v = sample_pm1(rng);
            let p = self.transform_point(u, v);
            let c = point_light_illuminate(p, self.light, pos, norm, scene);
            sum = sum.add(c);
            proof {
                let cs2 = cs.push(c);
                assert(cs2.drop_last() =~= cs);
                assert(area_sample_color(*self, pos, norm, *scene, c));
                cs = cs2;
            }
            k = k + 1;
        }
        sum.div_scalar(Fx::from_u32(samples as u32))
    }

    /// Deterministic integration: the average of the point-light
    /// contribution over a regular `(2 half + 1)^2` grid on the patch.
    fn illuminate_grid(&self, half: u8, pos: Vec3, norm: Vec3, scene: &Scene) -> (c: Color)
        ensures
            c == area_fd_light_at(*self, pos, norm, *scene, half as int),
    {
        let side: u32 = 2 * (half as u32) + 1;
        proof {
            assert((side as int) * (side as int) <= 511 * 511) by (nonlinear_arith)
                requires 0 <= side as int <= 511;
        }
        let count: u32 = side * side;
        let h = Fx::from_int(half as i32);
        let mut sum = Color::black();
        let mut k: u32 = 0;
        while k < count
            invariant
                k <= count,
                side == fd_side(half as int),
                count == fd_side(half as int) * fd_side(half as int),
                sum == fd_sum(*self, pos, norm, *scene, half as int, k as nat),
                h@ == (half as int) * (FX_ONE as int),
            decreases count - k,
        {
            proof {
                assert((k as int) / (side as int) < side as int) by (nonlinear_arith)
                    requires
                        0 <= k as int,
                        0 < side as int,
                        (k as int) < (side as int) * (side as int);
            }
            let i: i32 = (k / side) as i32 - half as i32;
            let j: i32 = (k % side) as i32 - half as i32;
            let u = Fx::from_int(i).div(h);
            let v = Fx::from_int(j).div(h);
            let p = self.transform_point(u, v);
            let c = point_light_illuminate(p, self.light, pos, norm, scene);
            sum = sum.add(c);
            k = k + 1;
        }
        sum.div_scalar(Fx::from_u32(count))
    }
}

/// The point-light radiance formula, shared by the point light itself
/// and by every area-light sample.
pub(crate) fn point_light_illuminate(
    lpos: Vec3,
    lcol: Color,
    pos: Vec3,
    norm: Vec3,
    scene: &Scene,
) -> (c: Color)
    ensures
        c == point_light_at(lpos, lcol, pos, norm, *scene),
{
    proof {
        reveal(point_light_at);
    }
    let diff = pos.sub(lpos);
    let dist_to_obj = diff.magnitude();
    let dir_to_obj = diff.normalize();
    let norm_attune = norm.dot(dir_to_obj).neg();
    if !norm_attune.is_pos() {
        return scene.get_skylight();
    }
    match raycast(scene, lpos, dir_to_obj) {
        None => scene.get_skylight(),
        Some(hit) => {
            if hit.dist.add(Fx::from_bits(SHADOW_EPS)).lt(dist_to_obj) {
                scene.get_skylight()
            } else {
                lcol.div_scalar(dist_to_obj.mul(dist_to_obj)).scale(norm_attune)
            }
        },
    }
}

impl Lights {
    /// The radiance this light sends to the surface point `pos` with
    /// normal `norm`, given the scene for shadow rays.
    pub fn illuminate(
        &self,
        pos: Vec3,
        norm: Vec3,
        scene: &Scene,
        rng: &mut rand::rngs::StdRng,
    ) -> (c: Color)
        ensures
            light_post(*self, pos, norm, *scene, c),
    {
        match self {
            Lights::PointLight(pl) => point_light_illuminate(pl.pos, pl.light, pos, norm, scene),
            Lights::DirectionalLight(dl) => {
                proof {
                    reveal(directional_light_at);
                }
                let norm_attune = norm.dot(dl.dir).neg();
                if !norm_attune.is_pos() {
                    return scene.get_skylight();
                }
                match raycast(scene, pos, dl.dir.neg()) {
                    None => dl.light.scale(norm_attune),
                    Some(hit) => scene.get_skylight(),
                }
            },
            Lights::AreaLight(al) => match al.sampling {
                AreaSampling::Stochastic { samples } => al.illuminate_stochastic(
                    samples,
                    pos,
                    norm,
                    scene,
                    rng,
                ),
                AreaSampling::FiniteDiff { half } => al.illuminate_grid(half, pos, norm, scene),
            },
        }
    }
}

} // verus!
