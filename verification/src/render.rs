//! The walk of a ray through a scene, and what a rendering takes for
//! granted: the ground, the camera's place, the stretch of a ray on which
//! hits count.

use vstd::prelude::*;
use crate::colour::Colour;
use crate::hittable::Environment;
use crate::material::{Diffuse, Material};
use crate::point::Point;
use crate::scalar::{Scalar, INFINITY_BITS, ONE_BITS};
use crate::sphere::Sphere;
use crate::vector::Vector;

verus! {

/// Bits of `0.001`: hits nearer to a ray's origin than this are not counted,
/// so that a scattered ray does not hit the surface it leaves.
pub const T_MIN_BITS: u64 = 0x3F50_624D_D2F1_A9FC;

/// Bits of `1000.0`, the radius of the ground.
pub const GROUND_RADIUS_BITS: u64 = 0x408F_4000_0000_0000;

/// Bits of `-1000.0`, the height of the ground's centre.
pub const GROUND_CENTRE_BITS: u64 = 0xC08F_4000_0000_0000;

/// Bits of `0.5`, each channel of the ground's grey.
pub const GROUND_GREY_BITS: u64 = 0x3FE0_0000_0000_0000;

/// Bits of `2.0` and `3.0`: the camera stands at `(0, 2, 3)` unless told
/// otherwise.
pub const LOOK_FROM_Y_BITS: u64 = 0x4000_0000_0000_0000;

pub const LOOK_FROM_Z_BITS: u64 = 0x4008_0000_0000_0000;

/// Bits of `0.01`, the width of the lens.
pub const APERTURE_BITS: u64 = 0x3F84_7AE1_47AE_147B;

/// The vertical field of view in degrees, unless told otherwise.
pub const V_FOV: i32 = 90;

/// What a ray met.
#[derive(Clone, Copy, Debug, PartialEq, Eq, Structural)]
pub enum Encounter {
    /// Nothing: the ray left the scene.
    Miss,
    /// A surface that absorbed it.
    Absorbed,
    /// A surface that scattered it.
    Scattered,
}

/// How the colour that a ray brings back is made up.
#[derive(Clone, Copy, Debug, PartialEq, Eq, Structural)]
pub enum Radiance {
    /// No light: `(0, 0, 0)`.
    Black,
    /// The colour of the sky in the ray's direction.
    Sky,
    /// What the surface keeps of the colour that the scattered ray brings
    /// back, traced with `depth` bounces left.
    Attenuated { depth: i32 },
}

/// The colour of a ray that has `depth` bounces left and met `encounter`.
/// With no bounce left it is black, whatever the ray would have met.
pub open spec fn spec_ray_colour(depth: i32, encounter: Encounter) -> Radiance {
    if depth <= 0 {
        Radiance::Black
    } else {
        match encounter {
            Encounter::Miss => Radiance::Sky,
            Encounter::Absorbed => Radiance::Black,
            Encounter::Scattered => Radiance::Attenuated { depth: (depth - 1) as i32 },
        }
    }
}

/// The ray has no bounce left: its colour is black and the scene need not be
/// asked.
pub fn exhausted(depth: i32) -> (r: bool)
    ensures
        r == (depth <= 0),
        r ==> forall|encounter: Encounter| spec_ray_colour(depth, encounter) == Radiance::Black,
{
    depth <= 0
}

/// The colour of a ray that has `depth` bounces left and met `encounter`.
pub fn ray_colour(depth: i32, encounter: Encounter) -> (out: Radiance)
    ensures
        out == spec_ray_colour(depth, encounter),
        depth <= 0 ==> out == Radiance::Black,
{
    if depth <= 0 {
        Radiance::Black
    } else {
        match encounter {
            Encounter::Miss => Radiance::Sky,
            Encounter::Absorbed => Radiance::Black,
            Encounter::Scattered => Radiance::Attenuated { depth: depth - 1 },
        }
    }
}

/// A whole walk: how many surfaces scattered the ray, and how it ended. The
/// colour it brings back is the end's colour, black or sky, times what each
/// of those surfaces keeps.
pub struct Walk {
    pub bounces: nat,
    pub end: Radiance,
}

/// The walk of a ray with `depth` bounces left that has been scattered
/// `bounces` times, in a scene where the ray meets `scene(k)` after `k`
/// scatterings.
pub open spec fn walk(depth: int, scene: spec_fn(nat) -> Encounter, bounces: nat) -> Walk
    decreases depth,
{
    if depth <= 0 {
        Walk { bounces, end: Radiance::Black }
    } else {
        match scene(bounces) {
            Encounter::Miss => Walk { bounces, end: Radiance::Sky },
            Encounter::Absorbed => Walk { bounces, end: Radiance::Black },
            Encounter::Scattered => walk(depth - 1, scene, bounces + 1),
        }
    }
}

/// A walk is made of the steps that [`ray_colour`] decides: it ends where a
/// step is black or sky, and goes on with the depth that the step leaves.
pub proof fn walk_follows_ray_colour(depth: i32, scene: spec_fn(nat) -> Encounter, bounces: nat)
    ensures
        walk(depth as int, scene, bounces) == match spec_ray_colour(depth, scene(bounces)) {
            Radiance::Attenuated { depth: left } => walk(left as int, scene, bounces + 1),
            end => Walk { bounces, end },
        },
{
}

/// A walk ends, in black or in the sky, after at most `depth` scatterings.
pub proof fn walk_is_bounded(depth: int, scene: spec_fn(nat) -> Encounter, bounces: nat)
    ensures
        walk(depth, scene, bounces).end == Radiance::Black || walk(depth, scene, bounces).end
            == Radiance::Sky,
        bounces <= walk(depth, scene, bounces).bounces,
        walk(depth, scene, bounces).bounces - bounces <= if depth <= 0 {
            0
        } else {
            depth
        },
    decreases depth,
{
    if depth > 0 && scene(bounces) == Encounter::Scattered {
        walk_is_bounded(depth - 1, scene, bounces + 1);
    }
}

/// With no bounce left a walk is black from the start, in every scene.
pub proof fn walk_without_depth_is_black(depth: int, scene: spec_fn(nat) -> Encounter)
    requires
        depth <= 0,
    ensures
        walk(depth, scene, 0) == (Walk { bounces: 0, end: Radiance::Black }),
{
}

/// The stretch of a ray on which hits count: from `0.001` on, without end.
pub fn ray_range() -> (range: (Scalar, Scalar))
    ensures
        range == (Scalar { bits: T_MIN_BITS }, Scalar { bits: INFINITY_BITS }),
{
    (Scalar::from_bits(T_MIN_BITS), Scalar::infinity())
}

/// The ground: a grey matt sphere of radius 1000 whose top is at the origin.
pub open spec fn spec_ground() -> Sphere {
    Sphere {
        centre: Point {
            v: Vector {
                xyz: [
                    Scalar { bits: 0 },
                    Scalar { bits: GROUND_CENTRE_BITS },
                    Scalar { bits: 0 },
                ],
            },
        },
        radius: Scalar { bits: GROUND_RADIUS_BITS },
        material: Material::Diffuse(
            Diffuse {
                colour: Colour {
                    r: Scalar { bits: GROUND_GREY_BITS },
                    g: Scalar { bits: GROUND_GREY_BITS },
                    b: Scalar { bits: GROUND_GREY_BITS },
                },
            },
        ),
    }
}

#[verifier::when_used_as_spec(spec_ground)]
pub fn ground() -> (sphere: Sphere)
    ensures
        sphere == spec_ground(),
{
    let grey = Scalar::from_bits(GROUND_GREY_BITS);
    Sphere::new(
        Point::new(Scalar::zero(), Scalar::from_bits(GROUND_CENTRE_BITS), Scalar::zero()),
        Scalar::from_bits(GROUND_RADIUS_BITS),
        Diffuse::new(Colour::new(grey, grey, grey)),
    )
}

/// The scene that is rendered: the ground, then the given spheres in their
/// order.
pub fn world(spheres: Vec<Sphere>) -> (world: Environment)
    ensures
        world.hittables@ == seq![spec_ground()] + spheres@,
{
    let mut world = Environment::new();
    world.add(ground());
    let mut i: usize = 0;
    while i < spheres.len()
        invariant
            i <= spheres.len(),
            world.hittables@ == seq![spec_ground()] + spheres@.take(i as int),
        decreases spheres.len() - i,
    {
        world.add(spheres[i]);
        assert(spheres@.take(i + 1) =~= spheres@.take(i as int).push(spheres@[i as int]));
        i = i + 1;
    }
    assert(spheres@.take(i as int) =~= spheres@);
    world
}

/// Where the camera stands and how it looks at the scene.
#[derive(Clone, Copy, Debug, PartialEq, Eq)]
pub struct Viewpoint {
    pub look_from: Point,
    pub look_at: Point,
    pub v_up: Vector,
    /// The vertical field of view, in degrees.
    pub v_fov: i32,
    pub aperture: Scalar,
}

impl Viewpoint {
    /// The view of a rendering: from `look_from`, or from `(0, 2, 3)` where
    /// none is given, at the origin, with `(0, 1, 0)` pointing up, through a
    /// lens `0.01` wide, with the field of view given or else 90 degrees.
    pub open spec fn spec_new(v_fov: Option<i32>, look_from: Option<Point>) -> Viewpoint {
        Viewpoint {
            look_from: match look_from {
                Some(p) => p,
                None => Point {
                    v: Vector {
                        xyz: [
                            Scalar { bits: 0 },
                            Scalar { bits: LOOK_FROM_Y_BITS },
                            Scalar { bits: LOOK_FROM_Z_BITS },
                        ],
                    },
                },
            },
            look_at: Point {
                v: Vector { xyz: [Scalar { bits: 0 }, Scalar { bits: 0 }, Scalar { bits: 0 }] },
            },
            v_up: Vector {
                xyz: [Scalar { bits: 0 }, Scalar { bits: ONE_BITS }, Scalar { bits: 0 }],
            },
            v_fov: match v_fov {
                Some(degrees) => degrees,
                None => V_FOV,
            },
            aperture: Scalar { bits: APERTURE_BITS },
        }
    }

    pub fn new(v_fov: Option<i32>, look_from: Option<Point>) -> (view: Viewpoint)
        ensures
            view == Viewpoint::spec_new(v_fov, look_from),
    {
        let zero = Scalar::zero();
        Viewpoint {
            look_from: match look_from {
                Some(p) => p,
                None => Point::new(
                    zero,
                    Scalar::from_bits(LOOK_FROM_Y_BITS),
                    Scalar::from_bits(LOOK_FROM_Z_BITS),
                ),
            },
            look_at: Point::new(zero, zero, zero),
            v_up: Vector::new(zero, Scalar::one(), zero),
            v_fov: match v_fov {
                Some(degrees) => degrees,
                None => V_FOV,
            },
            aperture: Scalar::from_bits(APERTURE_BITS),
        }
    }
}

} // verus!
