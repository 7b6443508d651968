// A whole rendering: the arithmetic is done here, in the simplest way, and
// every decision is the library's.

use ray_tracer::colour::{Colour, Pixel};
use ray_tracer::hittable::{closest_hit, Environment, HitRecord};
use ray_tracer::image::Image;
use ray_tracer::material::{Diffuse, Material, Refraction};
use ray_tracer::point::Point;
use ray_tracer::ray::Ray;
use ray_tracer::render::{exhausted, ray_colour, ray_range, world, Encounter, Radiance, Viewpoint};
use ray_tracer::scalar::Scalar;
use ray_tracer::sphere::{Roots, Sphere};
use ray_tracer::vector::{inside_unit, Vector};

type V3 = [f64; 3];

fn s(x: f64) -> Scalar {
    Scalar::from_bits(x.to_bits())
}

fn f(x: Scalar) -> f64 {
    f64::from_bits(x.to_bits())
}

fn vector(v: V3) -> Vector {
    Vector::new(s(v[0]), s(v[1]), s(v[2]))
}

fn point(v: V3) -> Point {
    Point::new(s(v[0]), s(v[1]), s(v[2]))
}

fn of_vector(v: Vector) -> V3 {
    [f(v.x()), f(v.y()), f(v.z())]
}

fn of_point(p: Point) -> V3 {
    [f(p.x()), f(p.y()), f(p.z())]
}

fn of_colour(c: Colour) -> V3 {
    [f(c.r), f(c.g), f(c.b)]
}

fn add(a: V3, b: V3) -> V3 {
    [a[0] + b[0], a[1] + b[1], a[2] + b[2]]
}

fn sub(a: V3, b: V3) -> V3 {
    [a[0] - b[0], a[1] - b[1], a[2] - b[2]]
}

fn mul(a: V3, b: V3) -> V3 {
    [a[0] * b[0], a[1] * b[1], a[2] * b[2]]
}

fn scale(a: V3, k: f64) -> V3 {
    [a[0] * k, a[1] * k, a[2] * k]
}

fn dot(a: V3, b: V3) -> f64 {
    a[0] * b[0] + a[1] * b[1] + a[2] * b[2]
}

fn cross(a: V3, b: V3) -> V3 {
    [a[1] * b[2] - a[2] * b[1], a[2] * b[0] - a[0] * b[2], a[0] * b[1] - a[1] * b[0]]
}

fn length(a: V3) -> f64 {
    dot(a, a).powf(0.5)
}

fn unit(a: V3) -> V3 {
    scale(a, 1.0 / length(a))
}

fn reflect(v: V3, n: V3) -> V3 {
    sub(v, scale(n, 2.0 * dot(v, n)))
}

fn refract(v: V3, n: V3, ratio: f64) -> V3 {
    let cos_theta = dot(scale(v, -1.0), n).min(1.0);
    let perp = scale(add(v, scale(n, cos_theta)), ratio);
    let parallel = scale(n, -(1.0 - dot(perp, perp)).abs().powf(0.5));
    add(perp, parallel)
}

// Numbers in [0, 1) that are the same in every run.
struct Draws(u64);

impl Draws {
    fn next(&mut self) -> f64 {
        self.0 ^= self.0 << 13;
        self.0 ^= self.0 >> 7;
        self.0 ^= self.0 << 17;
        (self.0 >> 11) as f64 / (1u64 << 53) as f64
    }

    fn in_unit_sphere(&mut self) -> V3 {
        loop {
            let v = [2.0 * self.next() - 1.0, 2.0 * self.next() - 1.0, 2.0 * self.next() - 1.0];
            if inside_unit(s(length(v))) {
                return v;
            }
        }
    }

    fn in_unit_disk(&mut self) -> V3 {
        loop {
            let v = [2.0 * self.next() - 1.0, 2.0 * self.next() - 1.0, 0.0];
            if inside_unit(s(dot(v, v))) {
                return v;
            }
        }
    }
}

struct Camera {
    look_from: V3,
    horizontal: V3,
    vertical: V3,
    lower_left_corner: V3,
    aperture: f64,
    u: V3,
    v: V3,
}

fn camera(view: &Viewpoint) -> Camera {
    let aspect_ratio = 16.0 / 9.0;
    let look_from = of_point(view.look_from);
    let look_at = of_point(view.look_at);
    let theta = (view.v_fov as f64 * std::f64::consts::PI) / 180.0;
    let focus_distance = length(sub(look_from, look_at));
    let viewport_height = 2.0 * (theta / 2.0).tan();
    let viewport_width = aspect_ratio * viewport_height;
    let w = unit(sub(look_from, look_at));
    let u = unit(cross(of_vector(view.v_up), w));
    let v = cross(w, u);
    let horizontal = scale(u, focus_distance * viewport_width);
    let vertical = scale(v, focus_distance * viewport_height);
    let lower_left_corner = sub(
        sub(sub(look_from, scale(horizontal, 0.5)), scale(vertical, 0.5)),
        scale(w, focus_distance),
    );
    Camera { look_from, horizontal, vertical, lower_left_corner, aperture: f(view.aperture), u, v }
}

fn get_ray(cam: &Camera, s_: f64, t: f64, draws: &mut Draws) -> Ray {
    let rd = scale(draws.in_unit_disk(), cam.aperture / 2.0);
    let offset = add(scale(cam.u, rd[0]), scale(cam.v, rd[1]));
    let target = add(add(cam.lower_left_corner, scale(cam.horizontal, s_)), scale(cam.vertical, t));
    Ray::new(point(add(cam.look_from, offset)), vector(sub(sub(target, cam.look_from), offset)))
}

fn roots(sphere: &Sphere, ray: &Ray) -> Roots {
    let (origin, direction) = (of_point(ray.origin), of_vector(ray.direction));
    let oc = sub(origin, of_point(sphere.centre));
    let a = dot(direction, direction);
    let half_b = dot(oc, direction);
    let c = dot(oc, oc) - f(sphere.radius).powf(2.0);
    let discriminant = half_b.powf(2.0) - a * c;
    let sqrtd = discriminant.powf(0.5);
    Roots::new(s(discriminant), s((-half_b - sqrtd) / a), s((-half_b + sqrtd) / a))
}

fn hit(world: &Environment, ray: &Ray) -> Option<HitRecord> {
    let (t_min, t_max) = ray_range();
    let all: Vec<Roots> = world.hittables.iter().map(|member| roots(member, ray)).collect();
    let nearest = closest_hit(&all, t_min, t_max)?;
    let sphere = &world.hittables[nearest.index];
    let (origin, direction) = (of_point(ray.origin), of_vector(ray.direction));
    let p = add(origin, scale(direction, f(nearest.t)));
    let normal = scale(sub(p, of_point(sphere.centre)), 1.0 / f(sphere.radius));
    Some(HitRecord::new_from_ray(
        point(p),
        vector(normal),
        nearest.t,
        s(dot(direction, normal)),
        sphere.material,
    ))
}

fn scatter(ray: &Ray, rec: &HitRecord, draws: &mut Draws) -> Option<(Ray, Colour)> {
    let normal = of_vector(rec.normal);
    let direction = of_vector(ray.direction);
    match rec.material {
        Material::Diffuse(diffuse) => {
            diffuse.scatter(rec, vector(add(normal, unit(draws.in_unit_sphere()))))
        }
        Material::Metal(metal) => {
            let reflected = reflect(direction, normal);
            let fuzzed = add(reflected, scale(draws.in_unit_sphere(), f(metal.fuzz)));
            metal.scatter(rec, s(dot(fuzzed, normal)), vector(fuzzed))
        }
        Material::Glass(glass) => {
            let unit_direction = unit(direction);
            let cos_theta = dot(scale(unit_direction, -1.0), normal).min(1.0);
            let sin_theta = (1.0 - cos_theta.powi(2)).powf(0.5);
            let ratio = f(glass.ratio(rec, s(1.0 / f(glass.refractive_idx))));
            let r0 = ((1.0 - ratio) / (1.0 + ratio)).powi(2);
            let at = Refraction {
                ratio_sine: s(ratio * sin_theta),
                reflectance: s(r0 + (1.0 - r0) * (1.0 - cos_theta).powi(5)),
                draw: s(draws.next()),
                reflected: vector(reflect(unit_direction, normal)),
                refracted: vector(refract(unit_direction, normal, ratio)),
            };
            glass.scatter(rec, &at)
        }
    }
}

fn colour_of(ray: &Ray, world: &Environment, depth: i32, draws: &mut Draws) -> V3 {
    if exhausted(depth) {
        return [0.0, 0.0, 0.0];
    }
    let scattered = match hit(world, ray) {
        None => Err(Encounter::Miss),
        Some(rec) => scatter(ray, &rec, draws).ok_or(Encounter::Absorbed),
    };
    let encounter = match &scattered {
        Ok(_) => Encounter::Scattered,
        Err(encounter) => *encounter,
    };
    match (ray_colour(depth, encounter), scattered) {
        (Radiance::Attenuated { depth }, Ok((next, attenuation))) => {
            mul(of_colour(attenuation), colour_of(&next, world, depth, draws))
        }
        (Radiance::Sky, _) => {
            let t = 0.5 * (unit(of_vector(ray.direction))[1] + 1.0);
            add(scale([1.0, 1.0, 1.0], 1.0 - t), scale([0.5, 0.7, 1.0], t))
        }
        _ => [0.0, 0.0, 0.0],
    }
}

fn pixel_of(sum: V3, samples: u32) -> Pixel {
    let n = samples as f64;
    let corrected = [(sum[0] / n).powf(0.5), (sum[1] / n).powf(0.5), (sum[2] / n).powf(0.5)];
    let shown = of_colour(vector(corrected).to_colour().clamp());
    Pixel::quantise(vector(scale(shown, 256.0)).to_colour())
}

fn render(spheres: Vec<Sphere>, image_width: u32, samples: u32, max_depth: i32, seed: u64) -> String {
    let view = Viewpoint::new(None, None);
    let cam = camera(&view);
    let scene = world(spheres);
    let mut image = Image::new(image_width);
    let mut draws = Draws(seed);
    while let Some((column, scanline)) = image.cursor() {
        let mut sum = [0.0, 0.0, 0.0];
        for _ in 0..samples {
            let u = (column as f64 + draws.next()) / ((image.width() - 1) as f64);
            let v = (scanline as f64 + draws.next()) / ((image.height() - 1) as f64);
            let ray = get_ray(&cam, u, v, &mut draws);
            sum = add(sum, colour_of(&ray, &scene, max_depth, &mut draws));
        }
        assert!(image.push(pixel_of(sum, samples)));
    }
    assert!(image.is_complete());
    image.ppm()
}

fn one_diffuse_sphere() -> Vec<Sphere> {
    let matt = Diffuse::new(Colour::new(s(0.1), s(0.2), s(0.5)));
    vec![Sphere::new(point([0.0, 0.0, -1.0]), s(0.5), matt)]
}

fn pixels_of(text: &str, header: &str) -> Vec<(u32, u32, u32)> {
    assert!(text.starts_with(header));
    text[header.len()..]
        .lines()
        .map(|line| {
            let channels: Vec<u32> = line.split(' ').map(|c| c.parse().unwrap()).collect();
            assert_eq!(channels.len(), 3, "{line:?}");
            (channels[0], channels[1], channels[2])
        })
        .collect()
}

#[test]
fn one_sphere_on_the_ground_renders_to_a_header_and_144_lines() {
    let text = render(one_diffuse_sphere(), 16, 1, 1, 0x2545_F491_4F6C_DD1D);
    assert!(text.starts_with("P3\n16 9\n255\n"));
    assert!(text.ends_with('\n'));
    let pixels = pixels_of(&text, "P3\n16 9\n255\n");
    assert_eq!(pixels.len(), 144);
    assert_eq!(text.lines().count(), 3 + 144);
    for (r, g, b) in &pixels {
        assert!(*r <= 255 && *g <= 255 && *b <= 255);
    }
}

#[test]
fn sky_is_written_first_and_ground_last() {
    let text = render(one_diffuse_sphere(), 16, 1, 1, 0x9E37_79B9_7F4A_7C15);
    let pixels = pixels_of(&text, "P3\n16 9\n255\n");
    // With one bounce a ray that hits anything brings back no light; one
    // that leaves the scene brings back the sky, whose blue is full.
    for (r, g, b) in &pixels[..16] {
        assert_eq!(*b, 255);
        assert!(*r >= 181 && *g >= 214, "{r} {g} {b}");
    }
    for pixel in &pixels[128..] {
        assert_eq!(*pixel, (0, 0, 0));
    }
}

#[test]
fn more_bounces_bring_light_to_the_ground() {
    let text = render(one_diffuse_sphere(), 16, 4, 8, 0xD1B5_4A32_D192_ED03);
    let pixels = pixels_of(&text, "P3\n16 9\n255\n");
    assert_eq!(pixels.len(), 144);
    assert!(pixels[128..].iter().any(|pixel| *pixel != (0, 0, 0)));
}

#[test]
fn same_draws_give_the_same_picture() {
    let a = render(one_diffuse_sphere(), 16, 2, 4, 42);
    let b = render(one_diffuse_sphere(), 16, 2, 4, 42);
    assert_eq!(a, b);
}

#[test]
fn wider_picture_has_more_lines() {
    let text = render(Vec::new(), 32, 1, 2, 7);
    let pixels = pixels_of(&text, "P3\n32 18\n255\n");
    assert_eq!(pixels.len(), 32 * 18);
}
