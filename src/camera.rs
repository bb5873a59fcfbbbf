use vstd::prelude::*;

verus! {

/// One of the four directions in which the camera can be moved.
#[derive(Clone, Copy, Debug, PartialEq, Eq, Structural)]
pub enum CameraMovement {
    Forward,
    Backward,
    Right,
    Left,
}

/// Coefficient of the facing direction `front` in a step in direction `m`.
pub open spec fn spec_front_factor(m: CameraMovement) -> int {
    match m {
        CameraMovement::Forward => 1,
        CameraMovement::Backward => -1,
        _ => 0,
    }
}

/// Coefficient of the side vector `cross(up, front)` (normalized) in a step
/// in direction `m`: `Left` goes along it, `Right` against it.
pub open spec fn spec_side_factor(m: CameraMovement) -> int {
    match m {
        CameraMovement::Left => 1,
        CameraMovement::Right => -1,
        _ => 0,
    }
}

impl CameraMovement {
    /// How many `front` vectors one unit of travel in this direction adds to
    /// the position. The camera scales the sum by speed times elapsed time.
    pub fn front_factor(self) -> (r: i8)
        ensures
            r as int == spec_front_factor(self),
    {
        match self {
            CameraMovement::Forward => 1,
            CameraMovement::Backward => -1,
            _ => 0,
        }
    }

    /// How many unit side vectors `normalize(cross(up, front))` one unit of
    /// travel in this direction adds to the position.
    pub fn side_factor(self) -> (r: i8)
        ensures
            r as int == spec_side_factor(self),
    {
        match self {
            CameraMovement::Left => 1,
            CameraMovement::Right => -1,
            _ => 0,
        }
    }
}

/// A vector with exact integer coordinates, in a length unit of the
/// caller's choice: the laws below are the exact arithmetic that the
/// camera's `f32` updates round.
pub type Vec3 = (int, int, int);

pub open spec fn dot(a: Vec3, b: Vec3) -> int {
    a.0 * b.0 + a.1 * b.1 + a.2 * b.2
}

pub open spec fn cross(a: Vec3, b: Vec3) -> Vec3 {
    (a.1 * b.2 - a.2 * b.1, a.2 * b.0 - a.0 * b.2, a.0 * b.1 - a.1 * b.0)
}

pub open spec fn scale(k: int, a: Vec3) -> Vec3 {
    (k * a.0, k * a.1, k * a.2)
}

pub open spec fn vec_add(a: Vec3, b: Vec3) -> Vec3 {
    (a.0 + b.0, a.1 + b.1, a.2 + b.2)
}

/// The displacement of one move in direction `m` covering `dist` (speed
/// times elapsed time), in exact arithmetic. The side axis is left
/// unnormalized: normalizing scales it by a positive factor, which changes
/// none of the laws below.
pub open spec fn displacement(m: CameraMovement, dist: int, front: Vec3, up: Vec3) -> Vec3 {
    vec_add(
        scale(dist * spec_front_factor(m), front),
        scale(dist * spec_side_factor(m), cross(up, front)),
    )
}

/// Movement does not depend on how time is sliced: moving `d1` and then `d2`
/// in one direction, with no look update between, displaces the camera as
/// far as one move of `d1 + d2`.
pub proof fn lemma_moves_add_up(m: CameraMovement, d1: int, d2: int, front: Vec3, up: Vec3)
    ensures
        vec_add(displacement(m, d1, front, up), displacement(m, d2, front, up))
            == displacement(m, d1 + d2, front, up),
{
    assert(forall|a: int, b: int, x: int| #[trigger] ((a + b) * x) == a * x + b * x)
        by (nonlinear_arith);
}

/// The cross product of two vectors is orthogonal to each of them.
proof fn lemma_cross_orthogonal(a: Vec3, b: Vec3)
    ensures
        dot(cross(a, b), a) == 0,
        dot(cross(a, b), b) == 0,
{
    let (ax, ay, az) = a;
    let (bx, by, bz) = b;
    assert((ay * bz - az * by) * ax == ay * bz * ax - az * by * ax) by (nonlinear_arith);
    assert((az * bx - ax * bz) * ay == az * bx * ay - ax * bz * ay) by (nonlinear_arith);
    assert((ax * by - ay * bx) * az == ax * by * az - ay * bx * az) by (nonlinear_arith);
    assert(ay * bz * ax == ax * bz * ay) by (nonlinear_arith);
    assert(az * by * ax == ax * by * az) by (nonlinear_arith);
    assert(az * bx * ay == ay * bx * az) by (nonlinear_arith);
    assert((ay * bz - az * by) * bx == ay * bz * bx - az * by * bx) by (nonlinear_arith);
    assert((az * bx - ax * bz) * by == az * bx * by - ax * bz * by) by (nonlinear_arith);
    assert((ax * by - ay * bx) * bz == ax * by * bz - ay * bx * bz) by (nonlinear_arith);
    assert(ay * bz * bx == ay * bx * bz) by (nonlinear_arith);
    assert(az * by * bx == az * bx * by) by (nonlinear_arith);
    assert(ax * bz * by == ax * by * bz) by (nonlinear_arith);
}

/// Scaling a vector scales its dot product with any other by the same factor.
proof fn lemma_dot_scale(k: int, a: Vec3, b: Vec3)
    ensures
        dot(scale(k, a), b) == k * dot(a, b),
{
    assert((k * a.0) * b.0 == k * (a.0 * b.0)) by (nonlinear_arith);
    assert((k * a.1) * b.1 == k * (a.1 * b.1)) by (nonlinear_arith);
    assert((k * a.2) * b.2 == k * (a.2 * b.2)) by (nonlinear_arith);
    let (x, y, z) = (a.0 * b.0, a.1 * b.1, a.2 * b.2);
    assert(k * (x + y + z) == k * x + k * y + k * z) by (nonlinear_arith);
}

/// A strafe (`Left` or `Right`) neither changes height along `up` nor moves
/// along `front`: its displacement is orthogonal to both.
pub proof fn lemma_strafe_orthogonal(m: CameraMovement, dist: int, front: Vec3, up: Vec3)
    requires
        m == CameraMovement::Left || m == CameraMovement::Right,
    ensures
        dot(displacement(m, dist, front, up), up) == 0,
        dot(displacement(m, dist, front, up), front) == 0,
{
    let k = dist * spec_side_factor(m);
    let c = cross(up, front);
    assert(dist * spec_front_factor(m) == 0);
    assert(displacement(m, dist, front, up) == scale(k, c));
    lemma_cross_orthogonal(up, front);
    lemma_dot_scale(k, c, up);
    lemma_dot_scale(k, c, front);
}

} // verus!
