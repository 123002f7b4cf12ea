use raytracer::nearest::nearest_hit;
use raytracer::render::render_pixels;
use raytracer::shapes::sphere_distance;

type V = (f64, f64, f64);

fn sub(a: V, b: V) -> V {
    (a.0 - b.0, a.1 - b.1, a.2 - b.2)
}

fn dot(a: V, b: V) -> f64 {
    a.0 * b.0 + a.1 * b.1 + a.2 * b.2
}

fn normalize(a: V) -> V {
    let l = dot(a, a).sqrt();
    (a.0 / l, a.1 / l, a.2 / l)
}

fn sphere_hit(center: V, radius: f64, origin: V, dir: V) -> Option<u64> {
    let to_center = sub(center, origin);
    let adj = dot(to_center, dir);
    let d2 = dot(to_center, to_center) - adj * adj;
    let radius2 = radius * radius;
    let thc = (radius2 - d2).sqrt();
    sphere_distance(d2.to_bits(), radius2.to_bits(), (adj - thc).to_bits(), (adj + thc).to_bits())
}

fn camera_ray(x: u32, y: u32, width: u32, height: u32, fov: f64) -> V {
    let fov_adjustment = (fov.to_radians() / 2.0).tan();
    let aspect_ratio = width as f64 / height as f64;
    let sx = (((x as f64 + 0.5) / width as f64) * 2.0 - 1.0) * aspect_ratio * fov_adjustment;
    let sy = (1.0 - ((y as f64 + 0.5) / height as f64) * 2.0) * fov_adjustment;
    normalize((sx, sy, -1.0))
}

#[test]
fn far_ray_at_center_hits_at_gap_to_surface() {
    let center = (0.0, 0.0, -10.0);
    let origin = (0.0, 0.0, 0.0);
    let dir = normalize(sub(center, origin));
    let d = sphere_hit(center, 2.0, origin, dir).map(f64::from_bits);
    assert_eq!(d, Some(8.0));
}

#[test]
fn ray_away_from_scene_misses() {
    let origin = (0.0, 0.0, 0.0);
    let dir = (0.0, 0.0, 1.0);
    let ds = vec![
        sphere_hit((0.0, 0.0, -5.0), 1.0, origin, dir),
        sphere_hit((3.0, 2.0, -3.0), 2.5, origin, dir),
    ];
    assert_eq!(ds, vec![None, None]);
    assert_eq!(nearest_hit(&ds), None);
}

#[test]
fn occluder_blocks_the_light() {
    // a point on the near side of the sphere at (0,0,-5), with the light behind the camera
    let bias = 1e-6;
    let shadow_origin = (0.0, 0.0, -4.0 + bias);
    let to_light = (0.0, 0.0, 1.0);
    let lit = sphere_hit((0.0, 0.0, -5.0), 1.0, shadow_origin, to_light);
    assert_eq!(lit, None);
    let occluder = sphere_hit((0.0, 0.0, -2.0), 0.5, shadow_origin, to_light);
    assert!(occluder.is_some());
    assert_eq!(nearest_hit(&vec![lit, occluder]), Some(1));
}

#[test]
fn single_sphere_scene_center_hit_corners_miss() {
    let (width, height, fov) = (800u32, 600u32, 90.0);
    let center = (0.0, 0.0, -5.0);
    let rows = render_pixels(width, height, |x: u32, y: u32| {
        let dir = camera_ray(x, y, width, height, fov);
        let hit = sphere_hit(center, 1.0, (0.0, 0.0, 0.0), dir);
        nearest_hit(&vec![hit]).map(|_| {
            let d = f64::from_bits(hit.unwrap());
            let p = (dir.0 * d, dir.1 * d, dir.2 * d);
            let normal = normalize(sub(p, center));
            dot(normal, (0.0, 0.0, 1.0)).max(0.0)
        })
    })
    .unwrap();
    assert_eq!(rows.len(), 600);
    assert!(rows.iter().all(|r| r.len() == 800));
    let middle = rows[300][400].expect("center pixel meets the sphere");
    assert!(middle > 0.9);
    assert_eq!(rows[0][0], None);
    assert_eq!(rows[0][799], None);
    assert_eq!(rows[599][0], None);
    assert_eq!(rows[599][799], None);
}
