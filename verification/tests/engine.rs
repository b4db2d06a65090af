use raycaster::grid::{GridMap, MapError};
use raycaster::project::{pick_draw_color, wall_bounds, wall_height, ColorRgba};
use raycaster::rat::{rat_eq_exec, Rat};
use raycaster::ray::{calculate_hit, delta_distances, side_distances, AxisDist, CastError};
use raycaster::camera::{Camera, Vec2};
use raycaster::render::{cast_column, render_frame, ColumnSlice};
use raycaster::SCALE;

/// A size-by-size map: solid border, empty interior.
fn boxed_map(size: usize) -> GridMap {
    let mut cells = vec![0u8; size * size];
    for i in 0..size {
        cells[i * size + 0] = 1;
        cells[i * size + (size - 1)] = 1;
        cells[0 * size + i] = 1;
        cells[(size - 1) * size + i] = 1;
    }
    GridMap::new(cells, size).expect("boxed map is valid")
}

fn boxed_map_with(size: usize, walls: &[(usize, usize, u8)]) -> GridMap {
    let mut cells = vec![0u8; size * size];
    for i in 0..size {
        cells[i * size + 0] = 1;
        cells[i * size + (size - 1)] = 1;
        cells[0 * size + i] = 1;
        cells[(size - 1) * size + i] = 1;
    }
    for &(c, r, v) in walls {
        cells[c * size + r] = v;
    }
    GridMap::new(cells, size).expect("map with walls is valid")
}

#[test]
fn map_rejects_bad_dimension() {
    assert!(matches!(GridMap::new(vec![1; 4], 2), Err(MapError::BadDimension)));
    assert!(matches!(GridMap::new(vec![1; 8], 3), Err(MapError::BadDimension)));
    assert!(matches!(GridMap::new(vec![1; 600 * 600], 600), Err(MapError::BadDimension)));
}

#[test]
fn map_rejects_unknown_material() {
    let mut cells = vec![1u8; 9];
    cells[4] = 6;
    assert!(matches!(GridMap::new(cells, 3), Err(MapError::UnknownMaterial)));
}

#[test]
fn map_rejects_open_border() {
    let mut cells = vec![1u8; 9];
    cells[3 * 0 + 1] = 0; // hole at (0, 1), on the border
    assert!(matches!(GridMap::new(cells, 3), Err(MapError::NotEnclosed)));
}

#[test]
fn map_accepts_enclosed_and_reads_cells() {
    let m = boxed_map_with(5, &[(2, 3, 4)]);
    assert_eq!(m.size(), 5);
    assert_eq!(m.get(0, 0), 1);
    assert_eq!(m.get(2, 3), 4);
    assert_eq!(m.get(2, 2), 0);
}

#[test]
fn axis_parallel_ray_has_infinite_delta() {
    // A ray along +x never crosses a horizontal grid line.
    let dir_x = Rat::new(1, 1);
    let dir_y = Rat::new(0, 1);
    let (dx, dy) = delta_distances(&dir_x, &dir_y);
    assert!(matches!(dy, AxisDist::Infinite));
    match dx {
        AxisDist::Finite(d) => {
            assert_eq!(d.num, 1);
            assert_eq!(d.den, 1);
        }
        AxisDist::Infinite => panic!("delta along the ray must be finite"),
    }
}

#[test]
fn perpendicular_distance_straight_ray() {
    // Camera half a cell into its cell, facing +x along a clear row;
    // the first wall is 2.5 cells ahead, hit through a vertical line.
    let map = boxed_map_with(6, &[(4, 1, 3)]);
    let pos_x = Rat::new(3, 2); // 1.5
    let pos_y = Rat::new(3, 2);
    let dir_x = Rat::new(1, 1);
    let dir_y = Rat::new(0, 1);
    let (delta_x, delta_y) = delta_distances(&dir_x, &dir_y);
    let (side_x, side_y) = side_distances(&pos_x, &pos_y, &dir_x, &dir_y, &delta_x, &delta_y);
    let hit = calculate_hit(
        &map, &pos_x, &pos_y, &dir_x, &dir_y, &delta_x, &delta_y, &side_x, &side_y,
    )
    .expect("interior ray must hit");
    assert_eq!(hit.material, 3);
    assert_eq!(hit.side, 0);
    assert!(rat_eq_exec(&hit.ray_length, &Rat::new(5, 2)));
}

#[test]
fn ray_escapes_from_border_cell_outward() {
    // From inside the border wall looking outward no cell is ever read:
    // the cutoff reports the escape instead of looping forever.
    let map = boxed_map(5);
    let pos_x = Rat::new(1, 2); // cell (0, 0), the border itself
    let pos_y = Rat::new(1, 2);
    let dir_x = Rat::new(-1, 1);
    let dir_y = Rat::new(0, 1);
    let (delta_x, delta_y) = delta_distances(&dir_x, &dir_y);
    let (side_x, side_y) = side_distances(&pos_x, &pos_y, &dir_x, &dir_y, &delta_x, &delta_y);
    let r = calculate_hit(
        &map, &pos_x, &pos_y, &dir_x, &dir_y, &delta_x, &delta_y, &side_x, &side_y,
    );
    assert!(matches!(r, Err(CastError::Escaped)));
}

#[test]
fn wall_height_exact_values() {
    assert_eq!(wall_height(600, &Rat::new(1, 1)), 600);
    assert_eq!(wall_height(600, &Rat::new(2, 1)), 300);
    assert_eq!(wall_height(600, &Rat::new(5, 2)), 240);
    assert_eq!(wall_height(600, &Rat::new(7, 3)), 257); // floor(1800 / 7)
}

#[test]
fn wall_height_decreases_with_distance() {
    let mut last = wall_height(600, &Rat::new(1, 4));
    for num in 1..40i64 {
        let h = wall_height(600, &Rat::new(num, 2));
        assert!(h <= last);
        last = h;
    }
    // Strict on the exact rational heights: sampled where the integer
    // projections differ too.
    assert!(wall_height(600, &Rat::new(3, 2)) > wall_height(600, &Rat::new(2, 1)));
}

#[test]
fn wall_height_degenerate_distances() {
    // A zero-length ray behaves like the float cast: saturates.
    assert_eq!(wall_height(600, &Rat::new(0, 1)), i32::MAX);
    // A near-zero length gives a huge but exact height.
    assert_eq!(wall_height(600, &Rat::new(1, 4096)), 600 * 4096);
}

#[test]
fn wall_bounds_stay_on_screen() {
    let (b, e) = wall_bounds(600, 100);
    assert_eq!((b, e), (250, 350));
    let (b, e) = wall_bounds(600, 600);
    assert_eq!((b, e), (0, 599));
    let (b, e) = wall_bounds(600, i32::MAX);
    assert_eq!((b, e), (0, 599));
    let (b, e) = wall_bounds(600, 0);
    assert_eq!((b, e), (300, 300));
    // Bounds hold for many heights.
    for wh in [0, 1, 2, 299, 300, 301, 599, 600, 601, 1000000, i32::MAX] {
        let (b, e) = wall_bounds(600, wh);
        assert!(b >= 0 && e <= 599 && b <= e);
    }
}

#[test]
fn palette_colors_and_fatal_set() {
    assert_eq!(pick_draw_color(1, 0), ColorRgba { r: 0, g: 0, b: 255, a: 255 });
    assert_eq!(pick_draw_color(2, 0), ColorRgba { r: 0, g: 255, b: 0, a: 255 });
    assert_eq!(pick_draw_color(3, 0), ColorRgba { r: 255, g: 0, b: 0, a: 255 });
    assert_eq!(pick_draw_color(4, 0), ColorRgba { r: 255, g: 0, b: 255, a: 255 });
    assert_eq!(pick_draw_color(5, 0), ColorRgba { r: 125, g: 125, b: 0, a: 255 });
}

#[test]
fn shading_darkens_red_and_green_only() {
    for m in 1u8..=5 {
        let lit = pick_draw_color(m, 0);
        let dark = pick_draw_color(m, 1);
        assert_eq!(dark.r as u32, lit.r as u32 * 192 / 256);
        assert_eq!(dark.g as u32, lit.g as u32 * 192 / 256);
        assert_eq!(dark.b, lit.b);
        assert_eq!(dark.a, lit.a);
    }
    // One exact pair: 255 -> 191, 125 -> 93.
    assert_eq!(pick_draw_color(3, 1).r, 191);
    assert_eq!(pick_draw_color(5, 1).g, 93);
}

fn centered_camera(map_mid: i64) -> Camera {
    Camera::new(
        Vec2 { x: map_mid, y: map_mid },
        Vec2 { x: -SCALE, y: 0 },
        Vec2 { x: 0, y: 2703 },
    )
    .expect("camera is valid")
}

#[test]
fn render_frame_covers_every_column() {
    let map = boxed_map_with(8, &[(2, 2, 2), (5, 5, 4)]);
    let cam = centered_camera(3 * SCALE + SCALE / 2);
    let frame = render_frame(&map, &cam, 16, 12);
    assert_eq!(frame.len(), 16);
    for (i, slice) in frame.iter().enumerate() {
        assert_eq!(slice.x, i);
        assert!(slice.wall_begin >= 0);
        assert!(slice.wall_end <= 11);
        assert!(slice.wall_begin <= slice.wall_end);
    }
}

#[test]
fn column_order_does_not_matter() {
    // Recomputing the columns right to left reproduces the frame that
    // the left-to-right renderer built.
    let map = boxed_map_with(8, &[(2, 2, 2), (5, 5, 4)]);
    let cam = centered_camera(3 * SCALE + SCALE / 2);
    let width = 16usize;
    let height = 12usize;
    let frame = render_frame(&map, &cam, width, height);
    let mut reversed: Vec<ColumnSlice> = Vec::new();
    for x in (0..width).rev() {
        let hit = cast_column(&map, &cam, x, width).expect("interior column hits");
        let wh = wall_height(height as i64, &hit.ray_length);
        let (b, e) = wall_bounds(height as i64, wh);
        let color = pick_draw_color(hit.material, hit.side);
        reversed.push(ColumnSlice { x, wall_begin: b, wall_end: e, color });
    }
    reversed.reverse();
    assert_eq!(frame, reversed);
}

#[test]
fn cast_column_sees_nearer_wall_taller() {
    // Walking the camera toward a wall makes its slice taller.
    let map = boxed_map(8);
    let width = 9usize;
    let far = centered_camera(4 * SCALE);
    let near = Camera::new(
        Vec2 { x: 2 * SCALE, y: 4 * SCALE },
        Vec2 { x: -SCALE, y: 0 },
        Vec2 { x: 0, y: 2703 },
    )
    .expect("camera is valid");
    // Center column looks straight along -x at the border wall.
    let hit_far = cast_column(&map, &far, width / 2, width).expect("hit");
    let hit_near = cast_column(&map, &near, width / 2, width).expect("hit");
    let h_far = wall_height(600, &hit_far.ray_length);
    let h_near = wall_height(600, &hit_near.ray_length);
    assert!(h_near > h_far);
}

#[test]
fn diagonal_ray_alternates_axes() {
    // From (1.5, 1.5) along (1, 1) both side distances start at 0.5 and
    // the marcher alternates axes; the first wall is the bottom border,
    // entered through a horizontal crossing at parameter 3.5.
    let map = boxed_map(6);
    let pos_x = Rat::new(3, 2);
    let pos_y = Rat::new(3, 2);
    let dir_x = Rat::new(1, 1);
    let dir_y = Rat::new(1, 1);
    let (delta_x, delta_y) = delta_distances(&dir_x, &dir_y);
    let (side_x, side_y) = side_distances(&pos_x, &pos_y, &dir_x, &dir_y, &delta_x, &delta_y);
    let hit = calculate_hit(
        &map, &pos_x, &pos_y, &dir_x, &dir_y, &delta_x, &delta_y, &side_x, &side_y,
    )
    .expect("interior ray must hit");
    assert_eq!(hit.material, 1);
    assert_eq!(hit.side, 1);
    assert!(rat_eq_exec(&hit.ray_length, &Rat::new(7, 2)));
}

#[test]
fn camera_render_matches_render_frame() {
    let map = boxed_map_with(8, &[(2, 2, 2), (5, 5, 4)]);
    let cam = centered_camera(3 * SCALE + SCALE / 2);
    let by_method = cam.render(&map, 16, 12);
    let by_function = render_frame(&map, &cam, 16, 12);
    assert_eq!(by_method, by_function);
}

#[test]
fn full_screen_frame_on_a_large_map() {
    // The default 800x600 screen over a 24x24 level.
    let mut walls = Vec::new();
    for r in 10..16 {
        walls.push((16usize, r as usize, 2u8));
    }
    walls.push((10, 12, 4));
    let map = boxed_map_with(24, &walls);
    let cam = centered_camera(12 * SCALE + SCALE / 2);
    let frame = cam.render(&map, 800, 600);
    assert_eq!(frame.len(), 800);
    for slice in &frame {
        assert!(slice.wall_begin >= 0 && slice.wall_end <= 599);
        assert!(slice.wall_begin <= slice.wall_end);
    }
    // The straight-ahead column looks along -x from x = 12.5 and meets
    // the pillar at column 10 of its own row, entered at x = 11:
    // distance 1.5.
    let hit = cast_column(&map, &cam, 400, 800).expect("center column hits");
    assert_eq!(hit.material, 4);
    assert_eq!(hit.side, 0);
    assert!(rat_eq_exec(&hit.ray_length, &Rat::new(3, 2)));
    // Wall height 600 / 1.5.
    let slice = &frame[400];
    let wh = wall_height(600, &hit.ray_length);
    assert_eq!(wh, 400);
    assert_eq!(slice.wall_begin, 100);
    assert_eq!(slice.wall_end, 500);
}
