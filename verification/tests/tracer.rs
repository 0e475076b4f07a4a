use rand::SeedableRng;
use rtracer::camera::Camera;
use rtracer::color::Color;
use rtracer::fixed::{Fx, FX_ONE};
use rtracer::light::{AreaLight, AreaSampling, DirectionalLight, Lights, PointLight};
use rtracer::material::{Diffuse, Materials, PerfectReflective, Reflective};
use rtracer::raycast_info::RayCastInfo;
use rtracer::renderer::{color_map, raycast, raycast_compute_light, render, ToneMapError};
use rtracer::scene::Scene;
use rtracer::scene_object::SceneObject;
use rtracer::shape::{Disc, InfinitePlane, Shapes, Sphere};
use rtracer::vec3::Vec3;

fn fx(x: f64) -> Fx {
    Fx::from_bits((x * FX_ONE as f64).round() as i64)
}

fn v3(x: f64, y: f64, z: f64) -> Vec3 {
    Vec3::new(fx(x), fx(y), fx(z))
}

fn c3(r: f64, g: f64, b: f64) -> Color {
    Color::new(fx(r), fx(g), fx(b))
}

fn rng_seeded(seed: u64) -> rand::rngs::StdRng {
    rand::rngs::StdRng::seed_from_u64(seed)
}

#[test]
fn unit_direction_magnitude() {
    let vectors = [
        v3(1.0, 2.0, 3.0),
        v3(-5.0, 0.25, 10.0),
        v3(0.5, -0.5, 0.25),
        v3(0.0, 0.0, 4.0),
        v3(-2.0, -2.0, -2.0),
    ];
    for v in vectors.iter() {
        let n = v.normalize();
        let m = n.magnitude();
        let err = (m.bits - FX_ONE).abs();
        // 1e-6 in fixed point is just under 17 steps.
        assert!(err <= 17, "magnitude off by {} steps", err);
    }
}

#[test]
fn sphere_hit_head_on() {
    let s = Sphere { pos: v3(0.0, 0.0, 0.0), radius: fx(1.0) };
    let hit = s.intersect(v3(-5.0, 0.0, 0.0), v3(1.0, 0.0, 0.0)).unwrap();
    assert_eq!(hit.dist, fx(4.0));
    assert_eq!(hit.intersection, v3(-1.0, 0.0, 0.0));
    assert_eq!(hit.normal, v3(-1.0, 0.0, 0.0));
    assert_eq!(hit.incoming_dir, v3(1.0, 0.0, 0.0));
}

#[test]
fn sphere_hit_from_inside_strikes_far_wall() {
    // From the center the near root is negative; the smallest positive
    // root is the far wall, one radius away, with an outward normal.
    let s = Sphere { pos: v3(0.0, 0.0, 0.0), radius: fx(1.0) };
    let hit = s.intersect(v3(0.0, 0.0, 0.0), v3(1.0, 0.0, 0.0)).unwrap();
    assert_eq!(hit.dist, fx(1.0));
    assert_eq!(hit.intersection, v3(1.0, 0.0, 0.0));
    assert_eq!(hit.normal, v3(1.0, 0.0, 0.0));
}

#[test]
fn sphere_positive_root_within_epsilon_misses() {
    // The ray starts just outside the sphere, a few fixed-point steps
    // short of the surface: the smallest positive root lies within the
    // anti-acne epsilon, so this is a miss — not a far-wall hit.
    let s = Sphere { pos: v3(0.0, 0.0, 0.0), radius: fx(1.0) };
    let origin = Vec3::new(Fx::from_bits(-(FX_ONE + 10)), fx(0.0), fx(0.0));
    assert!(s.intersect(origin, v3(1.0, 0.0, 0.0)).is_none());
}

#[test]
fn sphere_miss_behind() {
    let s = Sphere { pos: v3(0.0, 0.0, 0.0), radius: fx(1.0) };
    assert!(s.intersect(v3(-5.0, 0.0, 0.0), v3(-1.0, 0.0, 0.0)).is_none());
}

#[test]
fn plane_hit_and_single_sided() {
    let p = InfinitePlane { pos: v3(0.0, 0.0, 0.0), norm: v3(0.0, 0.0, 1.0) };
    let hit = p.intersect(v3(0.0, 0.0, 5.0), v3(0.0, 0.0, -1.0)).unwrap();
    assert_eq!(hit.dist, fx(5.0));
    // Ray moving away from the plane misses.
    assert!(p.intersect(v3(0.0, 0.0, 5.0), v3(0.0, 0.0, 1.0)).is_none());
    // Ray on the back side, moving further away: misses by the
    // single-sided rule (t would be negative).
    assert!(p.intersect(v3(0.0, 0.0, -5.0), v3(0.0, 0.0, -1.0)).is_none());
}

#[test]
fn disc_hit_inside_radius_only() {
    let d = Disc::new(v3(0.0, 0.0, 0.0), v3(0.0, 0.0, 1.0), fx(1.0));
    assert!(d.intersect(v3(0.5, 0.0, 5.0), v3(0.0, 0.0, -1.0)).is_some());
    // The underlying plane is hit, but outside the disc radius.
    assert!(d.intersect(v3(2.0, 0.0, 5.0), v3(0.0, 0.0, -1.0)).is_none());
}

#[test]
fn nearest_hit_picks_closest() {
    let mut scene = Scene::new();
    scene.add_obj(SceneObject::new(
        Shapes::Sphere(Sphere { pos: v3(10.0, 0.0, 0.0), radius: fx(1.0) }),
        Materials::Diffuse(Diffuse::new(c3(1.0, 1.0, 1.0))),
    ));
    scene.add_obj(SceneObject::new(
        Shapes::Sphere(Sphere { pos: v3(5.0, 0.0, 0.0), radius: fx(1.0) }),
        Materials::Diffuse(Diffuse::new(c3(1.0, 1.0, 1.0))),
    ));
    let hit = raycast(&scene, v3(0.0, 0.0, 0.0), v3(1.0, 0.0, 0.0)).unwrap();
    assert_eq!(hit.dist, fx(4.0));
}

#[test]
fn mirror_bounce_terminates_at_limit() {
    // Two parallel perfect mirrors, facing each other; white tint, so
    // the tint multiplication is exact.  With bounce limit 2 the chain
    // ends exactly at depth 3 and yields the skylight colour.
    let sky = c3(0.05, 0.07, 0.1);
    let white = c3(1.0, 1.0, 1.0);
    let mirrors = vec![
        SceneObject::new(
            Shapes::InfinitePlane(InfinitePlane { pos: v3(0.0, 0.0, 0.0), norm: v3(0.0, 0.0, 1.0) }),
            Materials::PerfectReflective(PerfectReflective::new(white)),
        ),
        SceneObject::new(
            Shapes::InfinitePlane(InfinitePlane { pos: v3(0.0, 0.0, 2.0), norm: v3(0.0, 0.0, -1.0) }),
            Materials::PerfectReflective(PerfectReflective::new(white)),
        ),
    ];
    let scene = Scene::from_maybe_component(Some(mirrors), None, Some(sky));
    let mut rng = rng_seeded(1);
    let out = raycast_compute_light(
        &scene,
        v3(0.0, 0.0, 1.0),
        v3(0.0, 0.0, -1.0),
        RayCastInfo::new(),
        &mut rng,
    );
    assert_eq!(out, sky);
}

#[test]
fn tone_map_explicit_bounds() {
    let buf = vec![c3(0.0, 1.0, 2.0)];
    let out = color_map(&buf, Some(fx(0.0)), Some(fx(2.0))).unwrap();
    // 1.0 in [0, 2] maps to round(127.5) = 128; the ends map to 0 and 255.
    assert_eq!(out, vec![(0u8, 128u8, 255u8)]);
}

#[test]
fn tone_map_scanned_bounds() {
    let buf = vec![c3(0.0, 0.0, 0.0), c3(2.0, 1.0, 0.0)];
    let out = color_map(&buf, None, None).unwrap();
    assert_eq!(out[0], (0u8, 0u8, 0u8));
    assert_eq!(out[1], (255u8, 128u8, 0u8));
}

#[test]
fn tone_map_blank_buffer_fails() {
    let buf: Vec<Color> = Vec::new();
    assert_eq!(color_map(&buf, Some(fx(0.0)), None), Err(ToneMapError::BlankImage));
    assert_eq!(color_map(&buf, None, None), Err(ToneMapError::BlankImage));
}

#[test]
fn tone_map_degenerate_range_fails() {
    let buf = vec![c3(1.0, 1.0, 1.0), c3(1.0, 1.0, 1.0)];
    assert_eq!(color_map(&buf, None, None), Err(ToneMapError::MonoColor));
    assert_eq!(color_map(&buf, Some(fx(3.0)), Some(fx(3.0))), Err(ToneMapError::MonoColor));
}

#[test]
fn point_light_lights_facing_surface() {
    // A floor at z = 0 lit by a point light two units above: the lit
    // point reads intensity / 4, no occluders.
    let mut scene = Scene::new();
    scene.add_obj(SceneObject::new(
        Shapes::InfinitePlane(InfinitePlane { pos: v3(0.0, 0.0, 0.0), norm: v3(0.0, 0.0, 1.0) }),
        Materials::Diffuse(Diffuse::new(c3(1.0, 1.0, 1.0))),
    ));
    let light = Lights::PointLight(PointLight::new(v3(0.0, 0.0, 2.0), c3(1.0, 1.0, 1.0)));
    let mut rng = rng_seeded(2);
    let c = light.illuminate(v3(0.0, 0.0, 0.0), v3(0.0, 0.0, 1.0), &scene, &mut rng);
    assert_eq!(c, c3(0.25, 0.25, 0.25));
}

#[test]
fn point_light_behind_surface_reads_skylight() {
    let sky = c3(0.2, 0.3, 0.4);
    let scene = Scene::from_maybe_component(None, None, Some(sky));
    let light = Lights::PointLight(PointLight::new(v3(0.0, 0.0, -2.0), c3(1.0, 1.0, 1.0)));
    let mut rng = rng_seeded(3);
    // The light is below the surface while the normal points up.
    let c = light.illuminate(v3(0.0, 0.0, 0.0), v3(0.0, 0.0, 1.0), &scene, &mut rng);
    assert_eq!(c, sky);
}

#[test]
fn point_light_occluded_reads_skylight() {
    let sky = c3(0.0, 0.0, 0.0);
    let mut scene = Scene::new();
    // The floor to be lit, and a disc hanging between light and floor.
    scene.add_obj(SceneObject::new(
        Shapes::InfinitePlane(InfinitePlane { pos: v3(0.0, 0.0, 0.0), norm: v3(0.0, 0.0, 1.0) }),
        Materials::Diffuse(Diffuse::new(c3(1.0, 1.0, 1.0))),
    ));
    scene.add_obj(SceneObject::new(
        Shapes::Disc(Disc::new(v3(0.0, 0.0, 1.0), v3(0.0, 0.0, 1.0), fx(0.5))),
        Materials::Diffuse(Diffuse::new(c3(1.0, 1.0, 1.0))),
    ));
    let light = Lights::PointLight(PointLight::new(v3(0.0, 0.0, 2.0), c3(1.0, 1.0, 1.0)));
    let mut rng = rng_seeded(4);
    let c = light.illuminate(v3(0.0, 0.0, 0.0), v3(0.0, 0.0, 1.0), &scene, &mut rng);
    assert_eq!(c, sky);
}

#[test]
fn directional_light_attenuates_by_normal() {
    let mut scene = Scene::new();
    scene.add_obj(SceneObject::new(
        Shapes::InfinitePlane(InfinitePlane { pos: v3(0.0, 0.0, 0.0), norm: v3(0.0, 0.0, 1.0) }),
        Materials::Diffuse(Diffuse::new(c3(1.0, 1.0, 1.0))),
    ));
    let light = Lights::DirectionalLight(DirectionalLight::new(v3(0.0, 0.0, -1.0), c3(0.5, 0.5, 0.5)));
    let mut rng = rng_seeded(5);
    // Shadow ray from the surface goes up and hits nothing: full
    // intensity times the cosine, which is 1 head-on.
    let c = light.illuminate(v3(0.0, 0.0, 1.0), v3(0.0, 0.0, 1.0), &scene, &mut rng);
    assert_eq!(c, c3(0.5, 0.5, 0.5));
}

fn area_light_scene() -> (Scene, AreaLight) {
    let mut scene = Scene::new();
    scene.add_obj(SceneObject::new(
        Shapes::InfinitePlane(InfinitePlane { pos: v3(0.0, 0.0, 0.0), norm: v3(0.0, 0.0, 1.0) }),
        Materials::Diffuse(Diffuse::new(c3(1.0, 1.0, 1.0))),
    ));
    let l = AreaLight::new(
        v3(0.0, 0.0, 2.0),
        v3(0.0, 1.0, 0.0),
        v3(1.0, 0.0, 0.0),
        fx(0.5),
        Some(c3(1.0, 1.0, 1.0)),
        AreaSampling::Stochastic { samples: 8 },
    );
    (scene, l)
}

fn area_variance(samples: u16, runs: u64) -> f64 {
    let (scene, base) = area_light_scene();
    let l = AreaLight { sampling: AreaSampling::Stochastic { samples }, ..base };
    let light = Lights::AreaLight(l);
    let mut values: Vec<f64> = Vec::new();
    for i in 0..runs {
        let mut rng = rng_seeded(1000 + i);
        let c = light.illuminate(v3(0.0, 0.0, 0.0), v3(0.0, 0.0, 1.0), &scene, &mut rng);
        values.push(c.r.bits as f64 / FX_ONE as f64);
    }
    let mean: f64 = values.iter().sum::<f64>() / values.len() as f64;
    values.iter().map(|v| (v - mean) * (v - mean)).sum::<f64>() / values.len() as f64
}

#[test]
fn area_light_variance_shrinks_with_samples() {
    let coarse = area_variance(2, 40);
    let fine = area_variance(64, 40);
    assert!(
        fine < coarse,
        "variance did not shrink: {} (64 samples) vs {} (2 samples)",
        fine,
        coarse
    );
}

#[test]
fn area_light_grid_matches_point_light_at_zero_scale() {
    // With a zero patch scale every grid sample degenerates to the
    // patch center, so the grid average equals the point-light value.
    let mut scene = Scene::new();
    scene.add_obj(SceneObject::new(
        Shapes::InfinitePlane(InfinitePlane { pos: v3(0.0, 0.0, 0.0), norm: v3(0.0, 0.0, 1.0) }),
        Materials::Diffuse(Diffuse::new(c3(1.0, 1.0, 1.0))),
    ));
    let area = Lights::AreaLight(AreaLight::new(
        v3(0.0, 0.0, 2.0),
        v3(0.0, 1.0, 0.0),
        v3(1.0, 0.0, 0.0),
        fx(0.0),
        Some(c3(1.0, 1.0, 1.0)),
        AreaSampling::FiniteDiff { half: 3 },
    ));
    let point = Lights::PointLight(PointLight::new(v3(0.0, 0.0, 2.0), c3(1.0, 1.0, 1.0)));
    let mut rng = rng_seeded(6);
    let a = area.illuminate(v3(0.0, 0.0, 0.0), v3(0.0, 0.0, 1.0), &scene, &mut rng);
    let p = point.illuminate(v3(0.0, 0.0, 0.0), v3(0.0, 0.0, 1.0), &scene, &mut rng);
    // The average of 49 equal terms differs from the single term only
    // by division truncation.
    assert!((a.r.bits - p.r.bits).abs() <= 49);
    assert!((a.g.bits - p.g.bits).abs() <= 49);
    assert!((a.b.bits - p.b.bits).abs() <= 49);
}

#[test]
fn sampled_scalars_stay_in_range_and_vary() {
    let mut rng = rng_seeded(7);
    let mut distinct = std::collections::HashSet::new();
    for _ in 0..200 {
        let s = rtracer::sampler::sample_pm1(&mut rng);
        assert!(-FX_ONE <= s.bits && s.bits <= FX_ONE);
        distinct.insert(s.bits);
    }
    assert!(distinct.len() > 100, "uniform draws look constant");
}

#[test]
fn sampled_ball_vectors_lie_in_ball() {
    let mut rng = rng_seeded(8);
    for _ in 0..100 {
        let v = rtracer::sampler::sample_unit_ball(&mut rng);
        assert!(v.mag_sq().bits <= FX_ONE);
    }
}

#[test]
fn camera_center_ray_is_forward() {
    let cam = Camera::new(
        v3(0.0, 0.0, 0.0),
        v3(1.0, 0.0, 0.0),
        v3(0.0, 1.0, 0.0),
        v3(0.0, 0.0, 1.0),
    );
    let r = cam.ray_at_pixel_position(5, 5, fx(0.1), 5, 5);
    assert_eq!(r, v3(1.0, 0.0, 0.0));
}

#[test]
fn camera_row_moves_ray_down() {
    let cam = Camera::new(
        v3(0.0, 0.0, 0.0),
        v3(1.0, 0.0, 0.0),
        v3(0.0, 1.0, 0.0),
        v3(0.0, 0.0, 1.0),
    );
    let above = cam.ray_at_pixel_position(5, 0, fx(0.1), 5, 5);
    let below = cam.ray_at_pixel_position(5, 10, fx(0.1), 5, 5);
    assert!(above.z.bits > 0);
    assert!(below.z.bits < 0);
}

#[test]
fn helper_functions_match_vector_methods() {
    let d = v3(0.0, 0.0, -1.0);
    let n = v3(0.0, 0.0, 1.0);
    assert_eq!(rtracer::helper::calculate_reflect_ray(d, n), v3(0.0, 0.0, 1.0));
    // A vector that already is a unit direction stays itself.
    assert_eq!(rtracer::helper::debug_normalize(v3(1.0, 0.0, 0.0)), v3(1.0, 0.0, 0.0));
}

#[test]
fn ray_cast_info_counts_up() {
    let mut info = RayCastInfo::new();
    assert_eq!(info.ray_depth(), 0);
    info.increment_ray_number();
    info.increment_ray_number();
    assert_eq!(info.ray_depth(), 2);
}

#[test]
fn reflect_head_on_reverses() {
    let d = v3(0.0, 0.0, -1.0);
    let n = v3(0.0, 0.0, 1.0);
    assert_eq!(d.reflect(n), v3(0.0, 0.0, 1.0));
}

#[test]
fn rough_mirror_with_zero_roughness_matches_perfect_direction() {
    // A rough mirror over a black-sky scene with one diffuse floor: with
    // zero roughness every sample follows the ideal mirror ray.
    let mut scene = Scene::new();
    scene.add_obj(SceneObject::new(
        Shapes::InfinitePlane(InfinitePlane { pos: v3(0.0, 0.0, 0.0), norm: v3(0.0, 0.0, 1.0) }),
        Materials::Reflective(Reflective::new(fx(0.0), 4)),
    ));
    scene.add_obj(SceneObject::new(
        Shapes::InfinitePlane(InfinitePlane { pos: v3(0.0, 0.0, 4.0), norm: v3(0.0, 0.0, -1.0) }),
        Materials::Diffuse(Diffuse::new(c3(1.0, 1.0, 1.0))),
    ));
    scene.add_light(Lights::PointLight(PointLight::new(v3(0.0, 0.0, 2.0), c3(1.0, 1.0, 1.0))));
    let mut rng = rng_seeded(9);
    // Straight down onto the rough mirror; the mirrored ray goes straight
    // up to the lit ceiling.
    let out = raycast_compute_light(
        &scene,
        v3(0.0, 0.0, 1.0),
        v3(0.0, 0.0, -1.0),
        RayCastInfo::new(),
        &mut rng,
    );
    // The ceiling point (0,0,4) is lit by the light two units below it:
    // intensity 1/4 at full attenuation, averaged over 4 equal samples.
    let expect = fx(0.25).bits;
    assert!((out.r.bits - expect).abs() <= 4);
}

#[test]
fn scene_collects_objects_and_lights() {
    let mut scene = Scene::new();
    assert_eq!(scene.get_skylight(), c3(0.0, 0.0, 0.0));
    scene.add_obj(SceneObject::new(
        Shapes::Sphere(Sphere { pos: v3(0.0, 0.0, 0.0), radius: fx(1.0) }),
        Materials::Diffuse(Diffuse::new(c3(1.0, 0.5, 0.5))),
    ));
    scene.append_objs(vec![SceneObject::new(
        Shapes::Disc(Disc::new(v3(0.0, 0.0, 0.0), v3(0.0, 0.0, 1.0), fx(2.0))),
        Materials::PerfectReflective(PerfectReflective::new(c3(1.0, 1.0, 1.0))),
    )]);
    scene.add_light(Lights::PointLight(PointLight::new(v3(0.0, 1.0, 0.5), c3(1.0, 1.0, 1.0))));
    scene.append_light(vec![Lights::DirectionalLight(DirectionalLight::new(
        v3(0.0, 0.0, -1.0),
        c3(0.1, 0.1, 0.1),
    ))]);
    assert_eq!(scene.iter_obj().len(), 2);
    assert_eq!(scene.iter_light().len(), 2);
}

#[test]
fn render_lit_sphere_brightest_at_center() {
    // A single diffuse sphere, one point light on the viewing axis, black
    // ambient: the silhouette center faces the light head-on and must be
    // brighter than a pixel near the grazing edge.
    let mut scene = Scene::new();
    scene.add_obj(SceneObject::new(
        Shapes::Sphere(Sphere { pos: v3(3.0, 0.0, 0.0), radius: fx(1.0) }),
        Materials::Diffuse(Diffuse::new(c3(1.0, 1.0, 1.0))),
    ));
    scene.add_light(Lights::PointLight(PointLight::new(v3(1.0, 0.0, 0.0), c3(1.0, 1.0, 1.0))));
    let cam = Camera::new(
        v3(0.0, 0.0, 0.0),
        v3(1.0, 0.0, 0.0),
        v3(0.0, 1.0, 0.0),
        v3(0.0, 0.0, 1.0),
    );
    let mut rng = rng_seeded(10);
    let img = render(&scene, &cam, 21, fx(0.03), &mut rng).unwrap();
    assert_eq!(img.size, 21);
    let center = img.pixels[(10 * 21 + 10) as usize];
    let edge = img.pixels[(10 * 21) as usize];
    assert!(center.0 > edge.0, "center {:?} not brighter than edge {:?}", center, edge);
}

#[test]
fn render_uniform_scene_fails_tone_mapping() {
    // Nothing to hit and a black skylight: every pixel is zero, and with
    // the fixed lower bound the scanned range is degenerate.
    let scene = Scene::new();
    let cam = Camera::new(
        v3(0.0, 0.0, 0.0),
        v3(1.0, 0.0, 0.0),
        v3(0.0, 1.0, 0.0),
        v3(0.0, 0.0, 1.0),
    );
    let mut rng = rng_seeded(11);
    assert!(matches!(render(&scene, &cam, 4, fx(0.1), &mut rng), Err(ToneMapError::MonoColor)));
}

#[test]
fn render_empty_image_fails_tone_mapping() {
    let scene = Scene::new();
    let cam = Camera::new(
        v3(0.0, 0.0, 0.0),
        v3(1.0, 0.0, 0.0),
        v3(0.0, 1.0, 0.0),
        v3(0.0, 0.0, 1.0),
    );
    let mut rng = rng_seeded(12);
    assert!(matches!(render(&scene, &cam, 0, fx(0.1), &mut rng), Err(ToneMapError::BlankImage)));
}
