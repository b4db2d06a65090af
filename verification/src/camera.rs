//! Camera pose and motion.
//!
//! The camera owns three 2D vectors in scaled-integer world coordinates
//! (units of `1 / SCALE`): `position`, the facing `direction`, and the
//! `view_plane` whose magnitude encodes the field of view.  Motion adds
//! the direction to the position; rotation applies one 2D rotation
//! matrix, given as an exact rational cosine/sine pair, to a snapshot of
//! both `direction` and `view_plane` at once, so the two stay locked
//! together.  Every mutation reports whether its exact result stayed
//! inside the representable coordinate range, and leaves the camera
//! unchanged when it did not.

use crate::SCALE;
use vstd::prelude::*;

verus! {

/// Largest representable magnitude of a pose component (scaled):
/// covers every coordinate of the largest accepted grid.
pub const CAM_MAX: i64 = 0x200000;

/// Largest accepted magnitude of a motion step (scaled).
pub const STEP_MAX: i64 = 0x8000;

/// Largest accepted rotation denominator.
pub const ROT_DEN_MAX: i64 = 0x100000;

/// A 2D vector in scaled world coordinates: the continuous value is
/// `(x / SCALE, y / SCALE)`.
#[derive(Clone, Copy, Debug, PartialEq, Eq, Structural)]
pub struct Vec2 {
    pub x: i64,
    pub y: i64,
}

/// Component within the representable coordinate range.
pub open spec fn in_cam_range(v: int) -> bool {
    -CAM_MAX <= v <= CAM_MAX
}

impl Vec2 {
    pub open spec fn wf(self) -> bool {
        in_cam_range(self.x as int) && in_cam_range(self.y as int)
    }
}

/// An exact rotation by an angle whose cosine and sine are `cos / den`
/// and `sin / den`.
#[derive(Clone, Copy, Debug, PartialEq, Eq, Structural)]
pub struct Rotation {
    pub cos: i64,
    pub sin: i64,
    pub den: i64,
}

impl Rotation {
    /// Cosine and sine magnitudes never exceed 1.
    pub open spec fn wf(self) -> bool {
        1 <= self.den <= ROT_DEN_MAX && -self.den <= self.cos <= self.den && -self.den <= self.sin
            <= self.den
    }

    /// A rotation is exactly unit when its cosine/sine pair lies on the
    /// unit circle; only then is rotating by it exactly invertible.
    pub open spec fn is_unit(self) -> bool {
        self.cos * self.cos + self.sin * self.sin == self.den * self.den
    }

    pub fn new(cos: i64, sin: i64, den: i64) -> (r: Option<Rotation>)
        ensures
            r matches Some(rot) ==> rot.wf() && rot.cos == cos && rot.sin == sin && rot.den == den,
            r is Some <==> (1 <= den <= ROT_DEN_MAX && -den <= cos <= den && -den <= sin <= den),
    {
        if 1 <= den && den <= ROT_DEN_MAX && -den <= cos && cos <= den && -den <= sin && sin
            <= den {
            Some(Rotation { cos, sin, den })
        } else {
            None
        }
    }

    /// The rotation by the opposite angle.
    pub fn inverse(&self) -> (r: Rotation)
        requires
            self.wf(),
        ensures
            r.wf(),
            r.cos == self.cos && r.sin == -self.sin && r.den == self.den,
            self.is_unit() ==> r.is_unit(),
    {
        proof {
            let s = self.sin as int;
            assert((-s) * (-s) == s * s) by (nonlinear_arith);
        }
        Rotation { cos: self.cos, sin: -self.sin, den: self.den }
    }
}

/// Exact numerators of a vector rotated by `(cos, sin) / den`, before
/// the division by `den`: one standard 2D rotation matrix applied to
/// the snapshot `(x, y)`.
pub open spec fn rotate_num_x(x: int, y: int, cos: int, sin: int) -> int {
    x * cos - y * sin
}

pub open spec fn rotate_num_y(x: int, y: int, cos: int, sin: int) -> int {
    x * sin + y * cos
}

/// Rotating by a unit rotation and then by its inverse restores both
/// components exactly, up to the scale factor `den * den` that the two
/// skipped divisions leave behind: the round trip is the identity in
/// exact arithmetic.
pub proof fn lemma_rotation_round_trip(x: int, y: int, cos: int, sin: int, den: int)
    requires
        den >= 1,
        cos * cos + sin * sin == den * den,
    ensures
        rotate_num_x(rotate_num_x(x, y, cos, sin), rotate_num_y(x, y, cos, sin), cos, -sin) == x
            * (den * den),
        rotate_num_y(rotate_num_x(x, y, cos, sin), rotate_num_y(x, y, cos, sin), cos, -sin) == y
            * (den * den),
{
    assert((x * cos - y * sin) * cos - (x * sin + y * cos) * (-sin) == x * (cos * cos + sin * sin))
        by (nonlinear_arith);
    assert((x * cos - y * sin) * (-sin) + (x * sin + y * cos) * cos == y * (cos * cos + sin * sin))
        by (nonlinear_arith);
}

/// Floor division by a positive divisor.
fn div_floor(a: i64, d: i64) -> (r: i64)
    requires
        1 <= d,
        -0x1000000000000000 <= a <= 0x1000000000000000,
        d <= 0x100000000,
    ensures
        r == a as int / d as int,
{
    if a >= 0 {
        ((a as u64) / (d as u64)) as i64
    } else {
        let m: u64 = (-a) as u64;
        let q: u64 = m / (d as u64);
        let rem: u64 = m % (d as u64);
        if rem == 0 {
            proof {
                vstd::arithmetic::div_mod::lemma_fundamental_div_mod(m as int, d as int);
                assert(a as int == (-(q as int)) * (d as int) + 0) by (nonlinear_arith)
                    requires
                        m == q * d + rem,
                        rem == 0,
                        a == -(m as int),
                ;
                vstd::arithmetic::div_mod::lemma_fundamental_div_mod_converse(
                    a as int,
                    d as int,
                    -(q as int),
                    0,
                );
            }
            -(q as i64)
        } else {
            proof {
                vstd::arithmetic::div_mod::lemma_fundamental_div_mod(m as int, d as int);
                assert(a as int == (-(q as int) - 1) * (d as int) + (d - rem)) by (nonlinear_arith)
                    requires
                        m == q * d + rem,
                        a == -(m as int),
                ;
                vstd::arithmetic::div_mod::lemma_fundamental_div_mod_converse(
                    a as int,
                    d as int,
                    -(q as int) - 1,
                    d - rem,
                );
            }
            -(q as i64) - 1
        }
    }
}

/// The camera pose: continuous position, facing direction, and the
/// view plane that spans the field of view.  Direction and view plane
/// are only ever rotated together, which preserves their relative
/// angle and magnitude ratio.
#[derive(Clone, Copy, Debug, PartialEq, Eq, Structural)]
pub struct Camera {
    pub position: Vec2,
    pub direction: Vec2,
    pub view_plane: Vec2,
}

impl Camera {
    /// All components representable, and direction and view plane
    /// linearly independent, so no screen column ever degenerates to a
    /// zero ray direction.
    pub open spec fn wf(self) -> bool {
        &&& self.position.wf()
        &&& self.direction.wf()
        &&& self.view_plane.wf()
        &&& self.direction.x * self.view_plane.y - self.direction.y * self.view_plane.x != 0
    }

    /// Builds a camera after checking that every component is in range
    /// and that direction and view plane are linearly independent.
    pub fn new(position: Vec2, direction: Vec2, view_plane: Vec2) -> (r: Option<Camera>)
        ensures
            r matches Some(c) ==> c.wf() && c.position == position && c.direction == direction
                && c.view_plane == view_plane,
            r is Some <==> (position.wf() && direction.wf() && view_plane.wf() && direction.x
                * view_plane.y - direction.y * view_plane.x != 0),
    {
        if position.x < -CAM_MAX || position.x > CAM_MAX || position.y < -CAM_MAX || position.y
            > CAM_MAX || direction.x < -CAM_MAX || direction.x > CAM_MAX || direction.y < -CAM_MAX
            || direction.y > CAM_MAX || view_plane.x < -CAM_MAX || view_plane.x > CAM_MAX
            || view_plane.y < -CAM_MAX || view_plane.y > CAM_MAX {
            return None;
        }
        proof {
            lemma_cross_fits(
                direction.x as int,
                direction.y as int,
                view_plane.x as int,
                view_plane.y as int,
            );
        }
        let cross: i64 = direction.x * view_plane.y - direction.y * view_plane.x;
        if cross == 0 {
            return None;
        }
        Some(Camera { position, direction, view_plane })
    }

    /// Moves the camera along its facing direction by `step / SCALE`
    /// world units; the exact displacement is `direction * step`,
    /// floor-divided back to the coordinate grid.  Reports `false` and
    /// leaves the camera unchanged if the result would leave the
    /// representable range.
    pub fn move_forward(&mut self, step: i64) -> (r: bool)
        requires
            old(self).wf(),
            -STEP_MAX <= step <= STEP_MAX,
        ensures
            final(self).direction == old(self).direction,
            final(self).view_plane == old(self).view_plane,
            final(self).wf(),
            r == (in_cam_range(
                moved_coord(old(self).position.x as int, old(self).direction.x as int, step as int),
            ) && in_cam_range(
                moved_coord(old(self).position.y as int, old(self).direction.y as int, step as int),
            )),
            r ==> final(self).position.x == moved_coord(
                old(self).position.x as int,
                old(self).direction.x as int,
                step as int,
            ) && final(self).position.y == moved_coord(
                old(self).position.y as int,
                old(self).direction.y as int,
                step as int,
            ),
            !r ==> *final(self) == *old(self),
    {
        proof {
            lemma_move_product_fits(self.direction.x as int, step as int);
            lemma_move_product_fits(self.direction.y as int, step as int);
        }
        let nx: i64 = self.position.x + div_floor(self.direction.x * step, SCALE);
        let ny: i64 = self.position.y + div_floor(self.direction.y * step, SCALE);
        if -CAM_MAX <= nx && nx <= CAM_MAX && -CAM_MAX <= ny && ny <= CAM_MAX {
            self.position = Vec2 { x: nx, y: ny };
            true
        } else {
            false
        }
    }

    /// Moves the camera against its facing direction: the same exact
    /// displacement as forward motion of the negated step.
    pub fn move_backward(&mut self, step: i64) -> (r: bool)
        requires
            old(self).wf(),
            -STEP_MAX <= step <= STEP_MAX,
        ensures
            final(self).direction == old(self).direction,
            final(self).view_plane == old(self).view_plane,
            final(self).wf(),
            r == (in_cam_range(
                moved_coord(old(self).position.x as int, old(self).direction.x as int, -(step as int)),
            ) && in_cam_range(
                moved_coord(old(self).position.y as int, old(self).direction.y as int, -(step as int)),
            )),
            r ==> final(self).position.x == moved_coord(
                old(self).position.x as int,
                old(self).direction.x as int,
                -(step as int),
            ) && final(self).position.y == moved_coord(
                old(self).position.y as int,
                old(self).direction.y as int,
                -(step as int),
            ),
            !r ==> *final(self) == *old(self),
    {
        self.move_forward(-step)
    }

    /// Rotates direction and view plane by the same rotation, both
    /// taken from the same pre-rotation snapshot, each new component
    /// floor-divided by the rotation denominator.  Reports `false` and
    /// leaves the camera unchanged if any rotated component would leave
    /// the representable range, or if the rotated pair would become
    /// linearly dependent through rounding.
    pub fn rotate(&mut self, rot: &Rotation) -> (r: bool)
        requires
            old(self).wf(),
            rot.wf(),
        ensures
            final(self).position == old(self).position,
            final(self).wf(),
            r ==> final(self).direction.x == rotated_coord_x(old(self).direction, *rot)
                && final(self).direction.y == rotated_coord_y(old(self).direction, *rot)
                && final(self).view_plane.x == rotated_coord_x(old(self).view_plane, *rot)
                && final(self).view_plane.y == rotated_coord_y(old(self).view_plane, *rot),
            !r ==> *final(self) == *old(self),
            r == (in_cam_range(rotated_coord_x(old(self).direction, *rot)) && in_cam_range(
                rotated_coord_y(old(self).direction, *rot),
            ) && in_cam_range(rotated_coord_x(old(self).view_plane, *rot)) && in_cam_range(
                rotated_coord_y(old(self).view_plane, *rot),
            ) && rotated_coord_x(old(self).direction, *rot) * rotated_coord_y(
                old(self).view_plane,
                *rot,
            ) - rotated_coord_y(old(self).direction, *rot) * rotated_coord_x(
                old(self).view_plane,
                *rot,
            ) != 0),
    {
        proof {
            lemma_rotate_products_fit(
                self.direction.x as int,
                self.direction.y as int,
                rot.cos as int,
                rot.sin as int,
            );
            lemma_rotate_products_fit(
                self.view_plane.x as int,
                self.view_plane.y as int,
                rot.cos as int,
                rot.sin as int,
            );
        }
        let dx: i64 = div_floor(self.direction.x * rot.cos - self.direction.y * rot.sin, rot.den);
        let dy: i64 = div_floor(self.direction.x * rot.sin + self.direction.y * rot.cos, rot.den);
        let px: i64 = div_floor(
            self.view_plane.x * rot.cos - self.view_plane.y * rot.sin,
            rot.den,
        );
        let py: i64 = div_floor(
            self.view_plane.x * rot.sin + self.view_plane.y * rot.cos,
            rot.den,
        );
        if dx < -CAM_MAX || dx > CAM_MAX || dy < -CAM_MAX || dy > CAM_MAX || px < -CAM_MAX || px
            > CAM_MAX || py < -CAM_MAX || py > CAM_MAX {
            return false;
        }
        proof {
            lemma_cross_fits(dx as int, dy as int, px as int, py as int);
        }
        let cross: i64 = dx * py - dy * px;
        if cross == 0 {
            return false;
        }
        self.direction = Vec2 { x: dx, y: dy };
        self.view_plane = Vec2 { x: px, y: py };
        true
    }
}

/// New coordinate after moving: the exact displacement
/// `component * step`, floor-divided by `SCALE`, added on.
pub open spec fn moved_coord(p: int, d: int, step: int) -> int {
    p + (d * step) / (SCALE as int)
}

/// First component of a rotated vector, floor-divided by the rotation
/// denominator.
pub open spec fn rotated_coord_x(v: Vec2, rot: Rotation) -> int {
    rotate_num_x(v.x as int, v.y as int, rot.cos as int, rot.sin as int) / (rot.den as int)
}

/// Second component of a rotated vector, floor-divided by the rotation
/// denominator.
pub open spec fn rotated_coord_y(v: Vec2, rot: Rotation) -> int {
    rotate_num_y(v.x as int, v.y as int, rot.cos as int, rot.sin as int) / (rot.den as int)
}

/// The rotation succeeds on this camera: every rotated component of
/// direction and view plane stays in the representable range, and the
/// rotated pair stays linearly independent through the rounding.
pub open spec fn rotation_applies(cam: Camera, rot: Rotation) -> bool {
    &&& in_cam_range(rotated_coord_x(cam.direction, rot))
    &&& in_cam_range(rotated_coord_y(cam.direction, rot))
    &&& in_cam_range(rotated_coord_x(cam.view_plane, rot))
    &&& in_cam_range(rotated_coord_y(cam.view_plane, rot))
    &&& rotated_coord_x(cam.direction, rot) * rotated_coord_y(cam.view_plane, rot)
        - rotated_coord_y(cam.direction, rot) * rotated_coord_x(cam.view_plane, rot) != 0
}

/// The camera after a successful rotation: position untouched,
/// direction and view plane both rotated from the same snapshot.
/// Meaningful when `rotation_applies` holds, which keeps every
/// component in range.
pub open spec fn rotated_camera(cam: Camera, rot: Rotation) -> Camera {
    Camera {
        position: cam.position,
        direction: Vec2 {
            x: rotated_coord_x(cam.direction, rot) as i64,
            y: rotated_coord_y(cam.direction, rot) as i64,
        },
        view_plane: Vec2 {
            x: rotated_coord_x(cam.view_plane, rot) as i64,
            y: rotated_coord_y(cam.view_plane, rot) as i64,
        },
    }
}

/// Products of in-range components fit comfortably in 64 bits.
#[verifier::nonlinear]
proof fn lemma_cross_fits(a: int, b: int, c: int, d: int)
    requires
        -CAM_MAX <= a <= CAM_MAX,
        -CAM_MAX <= b <= CAM_MAX,
        -CAM_MAX <= c <= CAM_MAX,
        -CAM_MAX <= d <= CAM_MAX,
    ensures
        -0x1000000000000000 <= a * d - b * c <= 0x1000000000000000,
        -0x1000000000000000 <= a * d <= 0x1000000000000000,
        -0x1000000000000000 <= b * c <= 0x1000000000000000,
{
}

/// A motion displacement product fits in 64 bits.
#[verifier::nonlinear]
proof fn lemma_move_product_fits(d: int, step: int)
    requires
        -CAM_MAX <= d <= CAM_MAX,
        -STEP_MAX <= step <= STEP_MAX,
    ensures
        -0x1000000000000000 <= d * step <= 0x1000000000000000,
{
}

/// Rotation numerators of in-range components fit in 64 bits.
#[verifier::nonlinear]
proof fn lemma_rotate_products_fit(x: int, y: int, cos: int, sin: int)
    requires
        -CAM_MAX <= x <= CAM_MAX,
        -CAM_MAX <= y <= CAM_MAX,
        -ROT_DEN_MAX <= cos <= ROT_DEN_MAX,
        -ROT_DEN_MAX <= sin <= ROT_DEN_MAX,
    ensures
        -0x1000000000000000 <= x * cos - y * sin <= 0x1000000000000000,
        -0x1000000000000000 <= x * sin + y * cos <= 0x1000000000000000,
        -0x1000000000000000 <= x * cos <= 0x1000000000000000,
        -0x1000000000000000 <= y * sin <= 0x1000000000000000,
        -0x1000000000000000 <= x * sin <= 0x1000000000000000,
        -0x1000000000000000 <= y * cos <= 0x1000000000000000,
{
}

} // verus!
