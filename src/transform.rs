//! The model matrix of each shape, as an ordered product of simple factors.
//!
//! A plan is read left to right: the model matrix is the identity multiplied
//! on the right by each factor in turn, so the first factor is the outermost
//! transform. The cubes are placed by translation, then scale, then rotation
//! about x, y and z, in that order.
use vstd::prelude::*;
use crate::scene::{clamp_angle, Fixed3, Scene, Transform, ANGLE_LIMIT};

verus! {

/// Distance of each cube from the centre along x (0.5).
pub const CUBE_OFFSET: i64 = 500_000;
/// Depth of the pyramid (−1).
pub const PYRAMID_Z: i64 = -1_000_000;
/// Height of the pyramid's bobbing (0.5).
pub const BOB_AMPLITUDE: i64 = 500_000;
/// Depth of the sphere (−2).
pub const SPHERE_Z: i64 = -2_000_000;
/// Uniform scale of the sphere (0.7).
pub const SPHERE_SCALE: i64 = 700_000;
/// Angle units (10⁻¹² radian) per microsecond of animation time, when one
/// second of time turns by one radian.
pub const ANGLE_PER_MICROSECOND: i128 = 1_000_000;

/// One factor of a model matrix. Lengths and scale factors are fixed-point
/// values of the scene; angles are in units of 10⁻¹² radian.
#[derive(Clone, Copy, Debug, PartialEq, Eq)]
pub enum Step {
    Translate(Fixed3),
    Scale(Fixed3),
    RotateX(i128),
    RotateY(i128),
    RotateZ(i128),
    /// A translation along y by `amplitude` × sin(`phase`).
    BobY { amplitude: i64, phase: i128 },
}

pub open spec fn xyz(x: i64, y: i64, z: i64) -> Fixed3 {
    Fixed3 { x, y, z }
}

/// Scale, then rotation about x (reversed), y and z, shared by both cubes.
pub open spec fn spin_steps(t: Transform) -> Seq<Step> {
    seq![
        Step::Scale(t.scale),
        Step::RotateX(clamp_angle(-t.angle.x)),
        Step::RotateY(t.angle.y),
        Step::RotateZ(t.angle.z),
    ]
}

/// The animation phase of a clock of `clock` microseconds.
pub open spec fn phase_of(clock: u64) -> i128 {
    (clock * ANGLE_PER_MICROSECOND) as i128
}

/// The left cube's plan: the scene translation, half a unit to the left,
/// then scale and spin.
pub open spec fn left_cube_plan(s: Scene) -> Seq<Step> {
    seq![
        Step::Translate(s.transform.translation),
        Step::Translate(xyz((-CUBE_OFFSET) as i64, 0, 0)),
    ] + spin_steps(s.transform)
}

/// The right cube's plan: half a unit to the right, then scale and spin.
pub open spec fn right_cube_plan(s: Scene) -> Seq<Step> {
    seq![Step::Translate(xyz(CUBE_OFFSET, 0, 0))] + spin_steps(s.transform)
}

/// The pyramid's plan: one unit back, bobbing and turning with the clock.
pub open spec fn pyramid_plan(s: Scene) -> Seq<Step> {
    seq![
        Step::Translate(xyz(0, 0, PYRAMID_Z)),
        Step::BobY { amplitude: BOB_AMPLITUDE, phase: phase_of(s.clock) },
        Step::RotateY(phase_of(s.clock)),
    ]
}

/// The sphere's plan: two units back, shrunk to 0.7.
pub open spec fn sphere_plan(s: Scene) -> Seq<Step> {
    seq![
        Step::Translate(xyz(0, 0, SPHERE_Z)),
        Step::Scale(xyz(SPHERE_SCALE, SPHERE_SCALE, SPHERE_SCALE)),
    ]
}

fn push_spin(v: &mut Vec<Step>, t: &Transform)
    ensures
        final(v)@ == old(v)@ + spin_steps(*t),
{
    let ax = t.angle.x;
    let rx = if ax < -ANGLE_LIMIT {
        ANGLE_LIMIT
    } else {
        -ax
    };
    v.push(Step::Scale(t.scale));
    v.push(Step::RotateX(rx));
    v.push(Step::RotateY(t.angle.y));
    v.push(Step::RotateZ(t.angle.z));
    assert(v@ =~= old(v)@ + spin_steps(*t));
}

impl Scene {
    /// The left cube: moved by the scene translation and half a unit to the
    /// left, then scaled and spun.
    pub fn left_cube_model(&self) -> (r: Vec<Step>)
        ensures
            r@ == left_cube_plan(*self),
    {
        let mut v: Vec<Step> = Vec::new();
        v.push(Step::Translate(self.transform.translation));
        v.push(Step::Translate(Fixed3 { x: -CUBE_OFFSET, y: 0, z: 0 }));
        push_spin(&mut v, &self.transform);
        v
    }

    /// The right cube: half a unit to the right, then scaled and spun; the
    /// scene translation does not move it.
    pub fn right_cube_model(&self) -> (r: Vec<Step>)
        ensures
            r@ == right_cube_plan(*self),
    {
        let mut v: Vec<Step> = Vec::new();
        v.push(Step::Translate(Fixed3 { x: CUBE_OFFSET, y: 0, z: 0 }));
        push_spin(&mut v, &self.transform);
        v
    }

    /// The pyramid: one unit back, bobbing up and down and turning about y
    /// with the animation clock.
    pub fn pyramid_model(&self) -> (r: Vec<Step>)
        ensures
            r@ == pyramid_plan(*self),
    {
        let phase: i128 = self.clock as i128 * ANGLE_PER_MICROSECOND;
        let mut v: Vec<Step> = Vec::new();
        v.push(Step::Translate(Fixed3 { x: 0, y: 0, z: PYRAMID_Z }));
        v.push(Step::BobY { amplitude: BOB_AMPLITUDE, phase });
        v.push(Step::RotateY(phase));
        assert(v@ =~= seq![
            Step::Translate(xyz(0, 0, PYRAMID_Z)),
            Step::BobY { amplitude: BOB_AMPLITUDE, phase: phase_of(self.clock) },
            Step::RotateY(phase_of(self.clock)),
        ]);
        v
    }

    /// The sphere: two units back, shrunk to 0.7.
    pub fn sphere_model(&self) -> (r: Vec<Step>)
        ensures
            r@ == sphere_plan(*self),
    {
        let mut v: Vec<Step> = Vec::new();
        v.push(Step::Translate(Fixed3 { x: 0, y: 0, z: SPHERE_Z }));
        v.push(Step::Scale(Fixed3 { x: SPHERE_SCALE, y: SPHERE_SCALE, z: SPHERE_SCALE }));
        assert(v@ =~= seq![
            Step::Translate(xyz(0, 0, SPHERE_Z)),
            Step::Scale(xyz(SPHERE_SCALE, SPHERE_SCALE, SPHERE_SCALE)),
        ]);
        v
    }
}

} // verus!
