//! Per-column ray casting and whole-frame rendering.
//!
//! Each screen column maps to a coordinate in `[-1, 1)` across the view
//! plane; the column's ray direction is the camera direction plus the
//! view plane scaled by that coordinate, kept as an exact rational and
//! never normalized — the perpendicular-distance formulation of the
//! marcher compensates for the non-unit length.  A frame is the
//! sequence of shaded wall slices of all columns, each column a pure
//! function of the pose, the map and the screen, so the frame does not
//! depend on the order in which columns are produced.

use crate::camera::Camera;
use crate::grid::{GridMap, MATERIAL_MAX};
use crate::project::{
    pick_color_spec, pick_draw_color, wall_begin_spec, wall_bounds, wall_end_spec, wall_height,
    wall_height_spec, ColorRgba, SCREEN_DIM_MAX,
};
use crate::rat::Rat;
use crate::ray::{
    abs_spec, calculate_hit, dda_spec, delta_distances, side_distances, CastError, Hit,
};
use crate::SCALE;
use vstd::prelude::*;

verus! {

/// Default screen width, matching the presentation window.
pub const SCREEN_WIDTH: usize = 800;

/// Default screen height, matching the presentation window.
pub const SCREEN_HEIGHT: usize = 600;

/// Numerator of the x component of the ray direction of column `x` on a
/// `w`-column screen: direction plus view plane scaled by the plane
/// coordinate `(2x - w) / w`, all over the denominator `SCALE * w`.
pub open spec fn ray_dir_x_num(cam: Camera, w: int, x: int) -> int {
    cam.direction.x * w + cam.view_plane.x * (2 * x - w)
}

/// Numerator of the y component of the ray direction of column `x`.
pub open spec fn ray_dir_y_num(cam: Camera, w: int, x: int) -> int {
    cam.direction.y * w + cam.view_plane.y * (2 * x - w)
}

/// Common denominator of both ray direction components.
pub open spec fn ray_den(w: int) -> int {
    SCALE * w
}

/// Grid cell of a scaled position coordinate.
pub open spec fn pos_cell(p: int) -> int {
    p / (SCALE as int)
}

/// Side-distance numerator at the start of the march for one axis, or
/// `None` for an axis the ray is parallel to.
pub open spec fn col_side_opt(p: int, rd: int, rden: int) -> Option<int> {
    if rd == 0 {
        None
    } else {
        Some(rden * (if rd < 0 {
            p - pos_cell(p) * SCALE
        } else {
            (pos_cell(p) + 1) * SCALE - p
        }))
    }
}

/// Side-distance denominator for one axis.
pub open spec fn col_side_den(rd: int) -> int {
    if rd == 0 {
        1
    } else {
        abs_spec(rd) * SCALE
    }
}

/// Side-distance increment numerator per step on one axis.
pub open spec fn col_inc(rd: int, rden: int) -> int {
    if rd == 0 {
        0
    } else {
        rden * SCALE
    }
}

/// Cell step direction on one axis.
pub open spec fn col_step(rd: int) -> int {
    if rd < 0 {
        -1
    } else {
        1
    }
}

/// The ray-march outcome of column `x`: the digital differential
/// analyzer run on the exact per-column ray.
pub open spec fn column_out(map: GridMap, cam: Camera, w: int, x: int) -> Option<(int, int, int)> {
    let rdx = ray_dir_x_num(cam, w, x);
    let rdy = ray_dir_y_num(cam, w, x);
    let rden = ray_den(w);
    dda_spec(
        map.cells_seq(),
        map.size_spec(),
        pos_cell(cam.position.x as int),
        pos_cell(cam.position.y as int),
        col_side_opt(cam.position.x as int, rdx, rden),
        col_side_den(rdx),
        col_inc(rdx, rden),
        col_side_opt(cam.position.y as int, rdy, rden),
        col_side_den(rdy),
        col_inc(rdy, rden),
        col_step(rdx),
        col_step(rdy),
        (2 * map.size_spec()) as nat,
    )
}

/// Casts the ray of one screen column and marches it to its hit.
pub fn cast_column(map: &GridMap, cam: &Camera, x: usize, width: usize) -> (r: Result<
    Hit,
    CastError,
>)
    requires
        map.wf(),
        cam.wf(),
        1 <= width <= SCREEN_DIM_MAX,
        x < width,
        0 <= cam.position.x && cam.position.x < map.size_spec() * SCALE,
        0 <= cam.position.y && cam.position.y < map.size_spec() * SCALE,
    ensures
        ({
            let out = column_out(*map, *cam, width as int, x as int);
            &&& (r is Ok <==> out is Some)
            &&& (r matches Ok(h) ==> out matches Some(o) && h.material == o.0 && h.side == o.1
                && h.ray_length.num == o.2 && h.ray_length.den == (if o.1 == 0 {
                col_side_den(ray_dir_x_num(*cam, width as int, x as int))
            } else {
                col_side_den(ray_dir_y_num(*cam, width as int, x as int))
            }))
            &&& (r matches Ok(h) ==> 1 <= h.material <= MATERIAL_MAX && (h.side == 0 || h.side
                == 1) && h.ray_length.wf() && h.ray_length.num >= 0)
            &&& ((1 <= pos_cell(cam.position.x as int) <= map.size_spec() - 2 && 1 <= pos_cell(
                cam.position.y as int,
            ) <= map.size_spec() - 2) ==> r is Ok)
        }),
{
    let w_i: i64 = width as i64;
    let t: i64 = 2 * (x as i64) - w_i;
    proof {
        lemma_ray_dir_fits(
            cam.direction.x as int,
            cam.view_plane.x as int,
            w_i as int,
            t as int,
        );
        lemma_ray_dir_fits(
            cam.direction.y as int,
            cam.view_plane.y as int,
            w_i as int,
            t as int,
        );
    }
    let rdx: i64 = cam.direction.x * w_i + cam.view_plane.x * t;
    let rdy: i64 = cam.direction.y * w_i + cam.view_plane.y * t;
    let rden: i64 = SCALE * w_i;
    proof {
        lemma_ray_dir_nonzero(
            cam.direction.x as int,
            cam.direction.y as int,
            cam.view_plane.x as int,
            cam.view_plane.y as int,
            w_i as int,
            t as int,
        );
    }
    let dir_x = Rat { num: rdx, den: rden };
    let dir_y = Rat { num: rdy, den: rden };
    let pos_x = Rat { num: cam.position.x, den: SCALE };
    let pos_y = Rat { num: cam.position.y, den: SCALE };
    let (delta_x, delta_y) = delta_distances(&dir_x, &dir_y);
    let (side_x, side_y) = side_distances(&pos_x, &pos_y, &dir_x, &dir_y, &delta_x, &delta_y);
    calculate_hit(map, &pos_x, &pos_y, &dir_x, &dir_y, &delta_x, &delta_y, &side_x, &side_y)
}

/// One column of a rendered frame: the wall slice rows `[wall_begin,
/// wall_end]` of screen column `x` in the wall's shaded color, with the
/// ceiling above and the floor below.
#[derive(Clone, Copy, Debug, PartialEq, Eq, Structural)]
pub struct ColumnSlice {
    pub x: usize,
    pub wall_begin: i32,
    pub wall_end: i32,
    pub color: ColorRgba,
}

/// The fully determined wall slice of column `x`: project the hit's
/// perpendicular distance to a wall height, clamp the slice to the
/// screen, and shade by material and crossing orientation.  Meaningful
/// whenever the column's march hits (which the renderer's precondition
/// guarantees).
pub open spec fn column_slice_spec(map: GridMap, cam: Camera, w: int, h: int, x: int) -> ColumnSlice {
    let o = column_out(map, cam, w, x)->Some_0;
    let len_den = if o.1 == 0 {
        col_side_den(ray_dir_x_num(cam, w, x))
    } else {
        col_side_den(ray_dir_y_num(cam, w, x))
    };
    let wh = wall_height_spec(h, o.2, len_den);
    ColumnSlice {
        x: x as usize,
        wall_begin: wall_begin_spec(h, wh) as i32,
        wall_end: wall_end_spec(h, wh) as i32,
        color: pick_color_spec(o.0, o.1),
    }
}

/// Renders one frame: casts every screen column in increasing order and
/// projects each hit into its shaded wall slice.  Requires the camera
/// to stand in an interior cell of the (enclosed) map, which guarantees
/// every ray hits a wall.
pub fn render_frame(map: &GridMap, cam: &Camera, width: usize, height: usize) -> (r: Vec<
    ColumnSlice,
>)
    requires
        map.wf(),
        cam.wf(),
        1 <= width <= SCREEN_DIM_MAX,
        1 <= height <= SCREEN_DIM_MAX,
        0 <= cam.position.x && 0 <= cam.position.y,
        1 <= pos_cell(cam.position.x as int) <= map.size_spec() - 2,
        1 <= pos_cell(cam.position.y as int) <= map.size_spec() - 2,
    ensures
        r@.len() == width,
        forall|i: int|
            0 <= i < width ==> r@[i] == column_slice_spec(
                *map,
                *cam,
                width as int,
                height as int,
                i,
            ),
{
    proof {
        lemma_pos_cell_in_grid(cam.position.x as int, map.size_spec());
        lemma_pos_cell_in_grid(cam.position.y as int, map.size_spec());
    }
    let h_i: i64 = height as i64;
    let mut frame: Vec<ColumnSlice> = Vec::new();
    let mut x: usize = 0;
    while x < width
        invariant
            map.wf(),
            cam.wf(),
            1 <= width <= SCREEN_DIM_MAX,
            1 <= height <= SCREEN_DIM_MAX,
            h_i == height,
            0 <= cam.position.x && cam.position.x < map.size_spec() * SCALE,
            0 <= cam.position.y && cam.position.y < map.size_spec() * SCALE,
            1 <= pos_cell(cam.position.x as int) <= map.size_spec() - 2,
            1 <= pos_cell(cam.position.y as int) <= map.size_spec() - 2,
            x <= width,
            frame@.len() == x,
            forall|i: int|
                0 <= i < x ==> frame@[i] == column_slice_spec(
                    *map,
                    *cam,
                    width as int,
                    height as int,
                    i,
                ),
        decreases width - x,
    {
        let hit: Hit = match cast_column(map, cam, x, width) {
            Ok(h) => h,
            Err(_) => {
                proof {
                    assert(false);
                }
                return frame;
            },
        };
        let wh: i32 = wall_height(h_i, &hit.ray_length);
        let (begin, end): (i32, i32) = wall_bounds(h_i, wh);
        let color: ColorRgba = pick_draw_color(hit.material, hit.side);
        let slice = ColumnSlice { x, wall_begin: begin, wall_end: end, color };
        frame.push(slice);
        x += 1;
    }
    frame
}

impl Camera {
    /// Renders one frame from this camera's pose: the per-column wall
    /// slices that the presentation sink draws and presents.
    pub fn render(&self, map: &GridMap, width: usize, height: usize) -> (r: Vec<ColumnSlice>)
        requires
            map.wf(),
            self.wf(),
            1 <= width <= SCREEN_DIM_MAX,
            1 <= height <= SCREEN_DIM_MAX,
            0 <= self.position.x && 0 <= self.position.y,
            1 <= pos_cell(self.position.x as int) <= map.size_spec() - 2,
            1 <= pos_cell(self.position.y as int) <= map.size_spec() - 2,
        ensures
            r@.len() == width,
            forall|i: int|
                0 <= i < width ==> r@[i] == column_slice_spec(
                    *map,
                    *self,
                    width as int,
                    height as int,
                    i,
                ),
    {
        render_frame(map, self, width, height)
    }
}

/// Rendering is column-independent: any two frames whose columns each
/// satisfy the per-column specification are identical, so producing the
/// columns in any order (left to right, right to left, or scattered)
/// yields the same frame.
pub proof fn lemma_column_independence(
    f1: Seq<ColumnSlice>,
    f2: Seq<ColumnSlice>,
    map: GridMap,
    cam: Camera,
    w: int,
    h: int,
)
    requires
        f1.len() == w,
        f2.len() == w,
        forall|i: int| 0 <= i < w ==> f1[i] == column_slice_spec(map, cam, w, h, i),
        forall|i: int| 0 <= i < w ==> f2[i] == column_slice_spec(map, cam, w, h, i),
    ensures
        f1 == f2,
{
    assert(f1 =~= f2);
}

/// A position coordinate inside the grid lies in an in-grid cell.
#[verifier::nonlinear]
proof fn lemma_pos_cell_in_grid(p: int, size: int)
    requires
        0 <= p,
        1 <= pos_cell(p) <= size - 2,
        size >= 3,
    ensures
        p < size * SCALE,
{
}

/// Ray-direction numerators of a well-formed camera fit in 64 bits and
/// inside the accepted delta-denominator bound.
#[verifier::nonlinear]
proof fn lemma_ray_dir_fits(d: int, p: int, w: int, t: int)
    requires
        -crate::camera::CAM_MAX <= d <= crate::camera::CAM_MAX,
        -crate::camera::CAM_MAX <= p <= crate::camera::CAM_MAX,
        1 <= w <= SCREEN_DIM_MAX,
        -w <= t <= w,
    ensures
        -0x400000000 <= d * w + p * t <= 0x400000000,
        -0x200000000 <= d * w <= 0x200000000,
        -0x200000000 <= p * t <= 0x200000000,
        1 <= SCALE * w <= 0x1000000,
{
}

/// A ray direction is never the zero vector: direction and view plane
/// are linearly independent, so no view-plane multiple cancels the
/// direction on both axes at once.
proof fn lemma_ray_dir_nonzero(dx: int, dy: int, px: int, py: int, w: int, t: int)
    requires
        dx * py - dy * px != 0,
        w >= 1,
    ensures
        !(dx * w + px * t == 0 && dy * w + py * t == 0),
{
    if dx * w + px * t == 0 && dy * w + py * t == 0 {
        assert((dx * py - dy * px) * w == (dx * w + px * t) * py - (dy * w + py * t) * px)
            by (nonlinear_arith);
        assert((dx * py - dy * px) * w == 0);
        assert(dx * py - dy * px == 0) by (nonlinear_arith)
            requires
                (dx * py - dy * px) * w == 0,
                w >= 1,
        ;
    }
}

} // verus!
