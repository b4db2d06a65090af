//! Ray marching over the grid.
//!
//! Per-axis distances along a ray are exact rationals.  A ray parallel to
//! an axis never crosses that axis's grid lines; its per-axis distances
//! are `Infinite`, which no finite competitor ever exceeds, so the
//! stepping rule can never pick that axis.
//!
//! The digital differential analyzer marches the ray cell by cell,
//! always crossing the nearer grid line first, until it enters a wall
//! cell.  Marching is cut off after twice the grid dimension many steps,
//! which a ray from an interior cell of an enclosed map can never reach:
//! the cutoff only turns an escaping ray (a structurally invalid map or
//! an exterior camera) into an explicit error instead of an unbounded
//! loop.

use crate::grid::{cell_value, GridMap, MATERIAL_MAX};
use crate::rat::Rat;
use vstd::prelude::*;

verus! {

/// Largest accepted numerator of a delta distance (equals the ray
/// direction's denominator).
pub const DELTA_NUM_MAX: i64 = 0x1000000;

/// Largest accepted denominator of a delta distance (equals the
/// magnitude of the ray direction's numerator).
pub const DELTA_DEN_MAX: i64 = 0x400000000;

/// Largest accepted denominator of a position coordinate.
pub const POS_DEN_MAX: i64 = 0x1000000;

/// Largest accepted numerator of a position coordinate.
pub const POS_NUM_MAX: i64 = 0x200000000000;

/// A per-axis ray distance: the distance grows to `Infinite` exactly
/// when the ray direction has a zero component on that axis.
#[derive(Clone, Copy, Debug)]
pub enum AxisDist {
    Infinite,
    Finite(Rat),
}

impl AxisDist {
    pub open spec fn wf(self) -> bool {
        match self {
            AxisDist::Infinite => true,
            AxisDist::Finite(r) => r.wf(),
        }
    }
}

/// Numerator of a finite per-axis distance.
pub open spec fn axis_num(a: AxisDist) -> Option<int> {
    match a {
        AxisDist::Infinite => None,
        AxisDist::Finite(r) => Some(r.num as int),
    }
}

/// Denominator of a finite per-axis distance (`1` for `Infinite`, whose
/// denominator is never consulted).
pub open spec fn axis_den(a: AxisDist) -> int {
    match a {
        AxisDist::Infinite => 1,
        AxisDist::Finite(r) => r.den as int,
    }
}

/// The side-distance comparison that picks the stepping axis: a finite
/// distance is below `Infinite`, and `Infinite` is below nothing, so an
/// axis with `Infinite` side distance is never stepped while the other
/// is finite.
pub open spec fn side_opt_lt(sx: Option<int>, dx: int, sy: Option<int>, dy: int) -> bool {
    match (sx, sy) {
        (Option::Some(a), Option::Some(b)) => a * dy < b * dx,
        (Option::Some(_), Option::None) => true,
        (Option::None, _) => false,
    }
}

/// An axis whose side distance has grown `Infinite` is never picked as
/// the stepping axis, and while the other axis is finite that finite
/// axis is always picked: the choice falls on the finite-delta axis
/// whenever one delta distance is infinite.
pub proof fn lemma_infinite_axis_never_stepped(sx: Option<int>, dx: int, sy: Option<int>, dy: int)
    ensures
        sx is None ==> !side_opt_lt(sx, dx, sy, dy),
        sx is Some && sy is None ==> side_opt_lt(sx, dx, sy, dy),
{
}

/// Outcome of marching the ray with the given fuel: `None` if the fuel
/// runs out before a wall cell is entered, otherwise
/// `Some((material, side, length_numerator))`, where `side` is `0` for a
/// vertical grid-line crossing (an x step) and `1` for a horizontal one,
/// and the perpendicular ray length is the numerator over the stepped
/// axis's side-distance denominator: the final over-step is removed, so
/// the length is the distance to the crossing that entered the wall.
pub open spec fn dda_spec(
    cells: Seq<u8>,
    size: int,
    cx: int,
    cy: int,
    sx: Option<int>,
    dx: int,
    ix: int,
    sy: Option<int>,
    dy: int,
    iy: int,
    step_x: int,
    step_y: int,
    fuel: nat,
) -> Option<(int, int, int)>
    decreases fuel,
{
    if fuel == 0 {
        None
    } else if side_opt_lt(sx, dx, sy, dy) {
        let len = sx->Some_0;
        let cx2 = cx + step_x;
        let val = if 0 <= cx2 < size && 0 <= cy < size {
            cell_value(cells, size, cx2, cy) as int
        } else {
            0
        };
        if val != 0 {
            Some((val, 0, len))
        } else {
            dda_spec(
                cells,
                size,
                cx2,
                cy,
                Some(len + ix),
                dx,
                ix,
                sy,
                dy,
                iy,
                step_x,
                step_y,
                (fuel - 1) as nat,
            )
        }
    } else {
        let len = sy->Some_0;
        let cy2 = cy + step_y;
        let val = if 0 <= cx < size && 0 <= cy2 < size {
            cell_value(cells, size, cx, cy2) as int
        } else {
            0
        };
        if val != 0 {
            Some((val, 1, len))
        } else {
            dda_spec(
                cells,
                size,
                cx,
                cy2,
                sx,
                dx,
                ix,
                Some(len + iy),
                dy,
                iy,
                step_x,
                step_y,
                (fuel - 1) as nat,
            )
        }
    }
}

/// A ray's first wall collision: the wall material, which grid-line
/// orientation was crossed last (`0` vertical, `1` horizontal), and the
/// exact perpendicular distance from the camera to that crossing.
#[derive(Clone, Copy, Debug)]
pub struct Hit {
    pub material: u8,
    pub side: u8,
    pub ray_length: Rat,
}

impl Hit {
    pub fn new(material: u8, side: u8, ray_length: Rat) -> (r: Hit)
        ensures
            r.material == material,
            r.side == side,
            r.ray_length == ray_length,
    {
        Hit { material, side, ray_length }
    }
}

/// Why a ray march failed.
#[derive(Clone, Copy, Debug, PartialEq, Eq, Structural)]
pub enum CastError {
    /// The step cutoff was reached before a wall cell was entered: the
    /// ray escaped the grid.
    Escaped,
}

/// Per-axis delta distances of a ray: the distance the ray travels to
/// cross one full grid cell along each axis, `|1 / direction|`, or
/// `Infinite` exactly when that direction component is zero.
pub fn delta_distances(dir_x: &Rat, dir_y: &Rat) -> (r: (AxisDist, AxisDist))
    requires
        dir_x.wf(),
        dir_y.wf(),
        dir_x.num > i64::MIN,
        dir_y.num > i64::MIN,
    ensures
        r.0 is Infinite <==> dir_x.num == 0,
        r.1 is Infinite <==> dir_y.num == 0,
        r.0 matches AxisDist::Finite(d) ==> d.num == dir_x.den && d.den == abs_spec(
            dir_x.num as int,
        ),
        r.1 matches AxisDist::Finite(d) ==> d.num == dir_y.den && d.den == abs_spec(
            dir_y.num as int,
        ),
        r.0.wf() && r.1.wf(),
{
    let x = if dir_x.num == 0 {
        AxisDist::Infinite
    } else {
        let mag: i64 = if dir_x.num >= 0 {
            dir_x.num
        } else {
            -dir_x.num
        };
        AxisDist::Finite(Rat { num: dir_x.den, den: mag })
    };
    let y = if dir_y.num == 0 {
        AxisDist::Infinite
    } else {
        let mag: i64 = if dir_y.num >= 0 {
            dir_y.num
        } else {
            -dir_y.num
        };
        AxisDist::Finite(Rat { num: dir_y.den, den: mag })
    };
    (x, y)
}

/// `|v|`.
pub open spec fn abs_spec(v: int) -> int {
    if v >= 0 {
        v
    } else {
        -v
    }
}

/// The grid cell a continuous nonnegative coordinate lies in.
pub open spec fn cell_of_spec(pos: Rat) -> int {
    pos.num as int / pos.den as int
}

/// Numerator (over `pos.den`) of the distance from `pos` to the next
/// grid line on its axis: the fractional part when walking down, the
/// complement of the fractional part when walking up.
pub open spec fn frac_num_spec(pos: Rat, downward: bool) -> int {
    if downward {
        pos.num - cell_of_spec(pos) * pos.den
    } else {
        (cell_of_spec(pos) + 1) * pos.den - pos.num
    }
}

/// Integer cell coordinate of a continuous nonnegative coordinate.
pub fn cell_of(pos: &Rat) -> (r: i64)
    requires
        pos.wf(),
        pos.num >= 0,
    ensures
        r == cell_of_spec(*pos),
        0 <= r <= pos.num,
{
    let q: u64 = (pos.num as u64) / (pos.den as u64);
    q as i64
}

/// Initial per-axis side distances: the exact ray distance from the
/// camera position to the first grid-line crossing on each axis,
/// `delta * frac` with the fractional cell position picked by the ray's
/// sign on that axis.  `Infinite` deltas give `Infinite` side distances.
pub fn side_distances(
    pos_x: &Rat,
    pos_y: &Rat,
    dir_x: &Rat,
    dir_y: &Rat,
    delta_x: &AxisDist,
    delta_y: &AxisDist,
) -> (r: (AxisDist, AxisDist))
    requires
        pos_x.wf() && pos_y.wf(),
        pos_x.num >= 0 && pos_y.num >= 0,
        pos_x.num <= POS_NUM_MAX && pos_y.num <= POS_NUM_MAX,
        pos_x.den <= POS_DEN_MAX && pos_y.den <= POS_DEN_MAX,
        delta_x matches AxisDist::Finite(d) ==> d.wf() && 1 <= d.num <= DELTA_NUM_MAX && d.den
            <= DELTA_DEN_MAX,
        delta_y matches AxisDist::Finite(d) ==> d.wf() && 1 <= d.num <= DELTA_NUM_MAX && d.den
            <= DELTA_DEN_MAX,
    ensures
        r.0 is Infinite <==> delta_x is Infinite,
        r.1 is Infinite <==> delta_y is Infinite,
        delta_x matches AxisDist::Finite(d) ==> r.0 matches AxisDist::Finite(s) && s.num == d.num
            * frac_num_spec(*pos_x, dir_x.num < 0) && s.den == d.den * pos_x.den && 0 <= s.num
            <= d.num * pos_x.den,
        delta_y matches AxisDist::Finite(d) ==> r.1 matches AxisDist::Finite(s) && s.num == d.num
            * frac_num_spec(*pos_y, dir_y.num < 0) && s.den == d.den * pos_y.den && 0 <= s.num
            <= d.num * pos_y.den,
        r.0.wf() && r.1.wf(),
{
    let x = side_distance_axis(pos_x, dir_x, delta_x);
    let y = side_distance_axis(pos_y, dir_y, delta_y);
    (x, y)
}

fn side_distance_axis(pos: &Rat, dir: &Rat, delta: &AxisDist) -> (r: AxisDist)
    requires
        pos.wf(),
        pos.num >= 0,
        pos.num <= POS_NUM_MAX,
        pos.den <= POS_DEN_MAX,
        delta matches AxisDist::Finite(d) ==> d.wf() && 1 <= d.num <= DELTA_NUM_MAX && d.den
            <= DELTA_DEN_MAX,
    ensures
        r is Infinite <==> delta is Infinite,
        delta matches AxisDist::Finite(d) ==> r matches AxisDist::Finite(s) && s.num == d.num
            * frac_num_spec(*pos, dir.num < 0) && s.den == d.den * pos.den && 0 <= s.num <= d.num
            * pos.den,
        r.wf(),
{
    match delta {
        AxisDist::Infinite => AxisDist::Infinite,
        AxisDist::Finite(d) => {
            let c: i64 = cell_of(pos);
            proof {
                lemma_cell_of_frac(*pos);
                lemma_side_products_fit(d.num as int, d.den as int, pos.den as int);
            }
            let f: i64 = if dir.num < 0 {
                pos.num - c * pos.den
            } else {
                (c + 1) * pos.den - pos.num
            };
            AxisDist::Finite(Rat { num: d.num * f, den: d.den * pos.den })
        },
    }
}

/// Division pins the fractional part of a coordinate inside one cell.
#[verifier::nonlinear]
proof fn lemma_cell_of_frac(pos: Rat)
    requires
        pos.wf(),
        pos.num >= 0,
    ensures
        0 <= pos.num - cell_of_spec(pos) * pos.den < pos.den,
        cell_of_spec(pos) >= 0,
        cell_of_spec(pos) * pos.den <= pos.num,
        pos.num < (cell_of_spec(pos) + 1) * pos.den,
        (cell_of_spec(pos) + 1) * pos.den <= pos.num + pos.den,
{
}

/// Sign of a ray-direction component, as a cell step.
pub open spec fn step_of(dir: Rat) -> int {
    if dir.num < 0 {
        -1
    } else {
        1
    }
}

/// Over a whole march, an axis-parallel ray (infinite side distance on
/// the parallel axis, for good) only ever steps — and can only hit
/// through — the other axis: every hit of such a ray crosses a
/// horizontal grid line.
pub proof fn lemma_parallel_ray_hits_other_axis(
    cells: Seq<u8>,
    size: int,
    cx: int,
    cy: int,
    dx: int,
    ix: int,
    sy: Option<int>,
    dy: int,
    iy: int,
    step_x: int,
    step_y: int,
    fuel: nat,
)
    ensures
        dda_spec(cells, size, cx, cy, None, dx, ix, sy, dy, iy, step_x, step_y, fuel) matches Some(
            o,
        ) ==> o.1 == 1,
    decreases fuel,
{
    if fuel > 0 {
        let sx = None::<int>;
        if !side_opt_lt(sx, dx, sy, dy) {
            let cy2 = cy + step_y;
            let val = if 0 <= cx < size && 0 <= cy2 < size {
                cell_value(cells, size, cx, cy2) as int
            } else {
                0
            };
            if val == 0 {
                lemma_parallel_ray_hits_other_axis(
                    cells,
                    size,
                    cx,
                    cy2,
                    dx,
                    ix,
                    Some(sy->Some_0 + iy),
                    dy,
                    iy,
                    step_x,
                    step_y,
                    (fuel - 1) as nat,
                );
            }
        }
    }
}

/// A ray marched from an interior cell of an enclosed grid enters a
/// wall cell before the fuel of twice the grid dimension runs out: every
/// step moves one cell further along a fixed-sign axis, so at most
/// `2 * (size - 3) + 1` steps fit between the walls.
pub proof fn lemma_dda_interior_hits(
    cells: Seq<u8>,
    size: int,
    cx: int,
    cy: int,
    sx: Option<int>,
    dx: int,
    ix: int,
    sy: Option<int>,
    dy: int,
    iy: int,
    step_x: int,
    step_y: int,
    fuel: nat,
)
    requires
        crate::grid::enclosed(cells, size),
        3 <= size,
        1 <= cx <= size - 2,
        1 <= cy <= size - 2,
        step_x == 1 || step_x == -1,
        step_y == 1 || step_y == -1,
        !(sx is None && sy is None),
        fuel >= (if step_x == 1 {
            size - 2 - cx
        } else {
            cx - 1
        }) + (if step_y == 1 {
            size - 2 - cy
        } else {
            cy - 1
        }) + 1,
    ensures
        dda_spec(cells, size, cx, cy, sx, dx, ix, sy, dy, iy, step_x, step_y, fuel) is Some,
    decreases fuel,
{
    if side_opt_lt(sx, dx, sy, dy) {
        let cx2 = cx + step_x;
        let val = cell_value(cells, size, cx2, cy);
        if val == 0 {
            assert(!crate::grid::on_border(cx2, cy, size));
            lemma_dda_interior_hits(
                cells,
                size,
                cx2,
                cy,
                Some(sx->Some_0 + ix),
                dx,
                ix,
                sy,
                dy,
                iy,
                step_x,
                step_y,
                (fuel - 1) as nat,
            );
        }
    } else {
        let cy2 = cy + step_y;
        let val = cell_value(cells, size, cx, cy2);
        if val == 0 {
            assert(!crate::grid::on_border(cx, cy2, size));
            lemma_dda_interior_hits(
                cells,
                size,
                cx,
                cy2,
                sx,
                dx,
                ix,
                Some(sy->Some_0 + iy),
                dy,
                iy,
                step_x,
                step_y,
                (fuel - 1) as nat,
            );
        }
    }
}

/// Marches the ray to its first wall collision with the digital
/// differential analyzer: repeatedly steps whichever axis reaches its
/// next grid line sooner, accumulating that axis's side distance, until
/// an in-bounds nonzero cell is entered.  The perpendicular ray length
/// removes the final over-step, so it measures to the crossing that
/// entered the wall.  Fails with `Escaped` exactly when twice the grid
/// dimension many steps find no wall, which cannot happen from an
/// interior starting cell.
pub fn calculate_hit(
    map: &GridMap,
    pos_x: &Rat,
    pos_y: &Rat,
    dir_x: &Rat,
    dir_y: &Rat,
    delta_x: &AxisDist,
    delta_y: &AxisDist,
    side_x: &AxisDist,
    side_y: &AxisDist,
) -> (r: Result<Hit, CastError>)
    requires
        map.wf(),
        pos_x.wf() && pos_y.wf(),
        pos_x.num >= 0 && pos_y.num >= 0,
        pos_x.num < map.size_spec() * pos_x.den,
        pos_y.num < map.size_spec() * pos_y.den,
        pos_x.den <= POS_DEN_MAX && pos_y.den <= POS_DEN_MAX,
        delta_x matches AxisDist::Finite(d) ==> 1 <= d.num <= DELTA_NUM_MAX && 1 <= d.den
            <= DELTA_DEN_MAX,
        delta_y matches AxisDist::Finite(d) ==> 1 <= d.num <= DELTA_NUM_MAX && 1 <= d.den
            <= DELTA_DEN_MAX,
        side_x is Infinite <==> delta_x is Infinite,
        side_y is Infinite <==> delta_y is Infinite,
        !(delta_x is Infinite && delta_y is Infinite),
        delta_x matches AxisDist::Finite(d) ==> side_x matches AxisDist::Finite(s) && s.den
            == d.den * pos_x.den && 0 <= s.num <= d.num * pos_x.den,
        delta_y matches AxisDist::Finite(d) ==> side_y matches AxisDist::Finite(s) && s.den
            == d.den * pos_y.den && 0 <= s.num <= d.num * pos_y.den,
    ensures
        ({
            let size = map.size_spec();
            let out = dda_spec(
                map.cells_seq(),
                size,
                cell_of_spec(*pos_x),
                cell_of_spec(*pos_y),
                axis_num(*side_x),
                axis_den(*side_x),
                delta_num_scaled(*delta_x, *pos_x),
                axis_num(*side_y),
                axis_den(*side_y),
                delta_num_scaled(*delta_y, *pos_y),
                step_of(*dir_x),
                step_of(*dir_y),
                (2 * size) as nat,
            );
            &&& (r is Ok <==> out is Some)
            &&& (r matches Ok(h) ==> out matches Some(o) && h.material == o.0 && h.side == o.1
                && h.ray_length.num == o.2 && h.ray_length.den == (if o.1 == 0 {
                axis_den(*side_x)
            } else {
                axis_den(*side_y)
            }))
            &&& (r matches Ok(h) ==> 1 <= h.material <= MATERIAL_MAX && (h.side == 0 || h.side
                == 1) && h.ray_length.wf() && h.ray_length.num >= 0)
            &&& ((1 <= cell_of_spec(*pos_x) <= size - 2 && 1 <= cell_of_spec(*pos_y) <= size - 2)
                ==> r is Ok)
        }),
{
    let size: usize = map.size();
    let size_i: i64 = size as i64;
    let cx0: i64 = cell_of(pos_x);
    let cy0: i64 = cell_of(pos_y);
    proof {
        lemma_cell_of_in_grid(*pos_x, map.size_spec());
        lemma_cell_of_in_grid(*pos_y, map.size_spec());
    }
    let step_x: i64 = if dir_x.num < 0 {
        -1
    } else {
        1
    };
    let step_y: i64 = if dir_y.num < 0 {
        -1
    } else {
        1
    };
    let (sx_fin, mut sx_num, sx_den, ix): (bool, i64, i64, i64) = match (side_x, delta_x) {
        (AxisDist::Finite(s), AxisDist::Finite(d)) => {
            proof {
                lemma_side_products_fit(d.num as int, d.den as int, pos_x.den as int);
            }
            (true, s.num, s.den, d.num * pos_x.den)
        },
        _ => (false, 0, 1, 0),
    };
    let (sy_fin, mut sy_num, sy_den, iy): (bool, i64, i64, i64) = match (side_y, delta_y) {
        (AxisDist::Finite(s), AxisDist::Finite(d)) => {
            proof {
                lemma_side_products_fit(d.num as int, d.den as int, pos_y.den as int);
            }
            (true, s.num, s.den, d.num * pos_y.den)
        },
        _ => (false, 0, 1, 0),
    };
    proof {
        lemma_side_total_fits(ix as int, 2 * size as int);
        lemma_side_total_fits(iy as int, 2 * size as int);
    }
    let ghost out = dda_spec(
        map.cells_seq(),
        map.size_spec(),
        cell_of_spec(*pos_x),
        cell_of_spec(*pos_y),
        axis_num(*side_x),
        axis_den(*side_x),
        delta_num_scaled(*delta_x, *pos_x),
        axis_num(*side_y),
        axis_den(*side_y),
        delta_num_scaled(*delta_y, *pos_y),
        step_of(*dir_x),
        step_of(*dir_y),
        (2 * map.size_spec()) as nat,
    );
    let max_steps: usize = 2 * size;
    let mut steps: usize = 0;
    let mut cx: i64 = cx0;
    let mut cy: i64 = cy0;
    while steps < max_steps
        invariant
            map.wf(),
            steps <= max_steps,
            max_steps == 2 * map.size_spec(),
            3 <= map.size_spec() <= 512,
            size_i == map.size_spec(),
            step_x == 1 || step_x == -1,
            step_y == 1 || step_y == -1,
            sx_fin || sy_fin,
            sx_fin == !((*side_x) is Infinite),
            sy_fin == !((*side_y) is Infinite),
            sx_den == axis_den(*side_x),
            sy_den == axis_den(*side_y),
            ix == delta_num_scaled(*delta_x, *pos_x),
            iy == delta_num_scaled(*delta_y, *pos_y),
            step_x == step_of(*dir_x),
            step_y == step_of(*dir_y),
            out == dda_spec(
                map.cells_seq(),
                map.size_spec(),
                cell_of_spec(*pos_x),
                cell_of_spec(*pos_y),
                axis_num(*side_x),
                axis_den(*side_x),
                delta_num_scaled(*delta_x, *pos_x),
                axis_num(*side_y),
                axis_den(*side_y),
                delta_num_scaled(*delta_y, *pos_y),
                step_of(*dir_x),
                step_of(*dir_y),
                (2 * map.size_spec()) as nat,
            ),
            sx_den >= 1 && sy_den >= 1,
            0 <= ix && 0 <= iy,
            ix * (1 + max_steps) <= i64::MAX,
            iy * (1 + max_steps) <= i64::MAX,
            sx_fin ==> 0 <= sx_num <= ix * (1 + steps),
            sy_fin ==> 0 <= sy_num <= iy * (1 + steps),
            cx0 - steps <= cx <= cx0 + steps,
            cy0 - steps <= cy <= cy0 + steps,
            0 <= cx0 < map.size_spec(),
            0 <= cy0 < map.size_spec(),
            out == dda_spec(
                map.cells_seq(),
                map.size_spec(),
                cx as int,
                cy as int,
                if sx_fin {
                    Some(sx_num as int)
                } else {
                    None
                },
                sx_den as int,
                ix as int,
                if sy_fin {
                    Some(sy_num as int)
                } else {
                    None
                },
                sy_den as int,
                iy as int,
                step_x as int,
                step_y as int,
                (max_steps - steps) as nat,
            ),
        decreases max_steps - steps,
    {
        proof {
            lemma_side_grow(ix as int, steps as int, max_steps as int);
            lemma_side_grow(iy as int, steps as int, max_steps as int);
        }
        let choose_x: bool = if !sx_fin {
            false
        } else if !sy_fin {
            true
        } else {
            crate::rat::rat_lt_exec(
                &Rat { num: sx_num, den: sx_den },
                &Rat { num: sy_num, den: sy_den },
            )
        };
        if choose_x {
            let len_num: i64 = sx_num;
            sx_num = sx_num + ix;
            cx = cx + step_x;
            if 0 <= cx && cx < size_i && 0 <= cy && cy < size_i {
                let v: u8 = map.get(cx as usize, cy as usize);
                if v != 0 {
                    proof {
                        crate::grid::lemma_cell_in_palette(*map, cx as int, cy as int);
                    }
                    return Ok(Hit { material: v, side: 0, ray_length: Rat { num: len_num, den: sx_den } });
                }
            }
        } else {
            let len_num: i64 = sy_num;
            sy_num = sy_num + iy;
            cy = cy + step_y;
            if 0 <= cx && cx < size_i && 0 <= cy && cy < size_i {
                let v: u8 = map.get(cx as usize, cy as usize);
                if v != 0 {
                    proof {
                        crate::grid::lemma_cell_in_palette(*map, cx as int, cy as int);
                    }
                    return Ok(Hit { material: v, side: 1, ray_length: Rat { num: len_num, den: sy_den } });
                }
            }
        }
        steps = steps + 1;
    }
    proof {
        if 1 <= cell_of_spec(*pos_x) <= map.size_spec() - 2 && 1 <= cell_of_spec(*pos_y)
            <= map.size_spec() - 2 {
            lemma_dda_interior_hits(
                map.cells_seq(),
                map.size_spec(),
                cell_of_spec(*pos_x),
                cell_of_spec(*pos_y),
                axis_num(*side_x),
                axis_den(*side_x),
                delta_num_scaled(*delta_x, *pos_x),
                axis_num(*side_y),
                axis_den(*side_y),
                delta_num_scaled(*delta_y, *pos_y),
                step_of(*dir_x),
                step_of(*dir_y),
                (2 * map.size_spec()) as nat,
            );
        }
    }
    Err(CastError::Escaped)
}

/// Increment numerator of a finite delta distance, scaled to the side
/// distance's denominator (`0` for `Infinite`, never consulted).
pub open spec fn delta_num_scaled(delta: AxisDist, pos: Rat) -> int {
    match delta {
        AxisDist::Infinite => 0,
        AxisDist::Finite(d) => d.num * pos.den,
    }
}

/// A coordinate inside the grid lies in a cell inside the grid.
#[verifier::nonlinear]
proof fn lemma_cell_of_in_grid(pos: Rat, size: int)
    requires
        pos.wf(),
        pos.num >= 0,
        pos.num < size * pos.den,
    ensures
        0 <= cell_of_spec(pos) < size,
{
}

/// The accumulated side distance stays bounded over the whole march.
#[verifier::nonlinear]
proof fn lemma_side_total_fits(ix: int, max_steps: int)
    requires
        0 <= ix <= 0x1000000000000,
        0 <= max_steps <= 1024,
    ensures
        ix * (1 + max_steps) <= i64::MAX,
{
}

/// One more step keeps the accumulated side distance under its cap.
#[verifier::nonlinear]
proof fn lemma_side_grow(ix: int, steps: int, max_steps: int)
    requires
        0 <= ix,
        0 <= steps < max_steps,
    ensures
        ix * (1 + steps) + ix == ix * (1 + (steps + 1)),
        ix * (1 + (steps + 1)) <= ix * (1 + max_steps),
{
}

/// Bounded factors keep every side-distance product inside `i64`.
#[verifier::nonlinear]
proof fn lemma_side_products_fit(dnum: int, dden: int, pden: int)
    requires
        1 <= dnum <= DELTA_NUM_MAX,
        1 <= dden <= DELTA_DEN_MAX,
        1 <= pden <= POS_DEN_MAX,
    ensures
        forall|f: int| 0 <= f <= pden ==> 0 <= #[trigger] (dnum * f) <= dnum * pden,
        1 <= dnum * pden <= 0x1000000000000,
        1 <= dden * pden <= i64::MAX,
{
}

} // verus!
