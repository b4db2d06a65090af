//! The occupancy grid.
//!
//! A `GridMap` is a fixed square matrix of cell values: `0` is empty,
//! `1..=5` are wall materials (the closed palette).  The border must be
//! entirely walls, so that a ray marched from an interior cell always
//! meets one.  Both conditions are checked once, when the map is built;
//! the renderer never re-validates and never writes a cell.

use vstd::prelude::*;

verus! {

/// Smallest accepted grid dimension: anything smaller has no interior.
pub const GRID_MIN: usize = 3;
/// Largest accepted grid dimension; keeps every distance computation
/// comfortably inside 64-bit integers.
pub const GRID_MAX: usize = 512;
/// Largest wall material identifier with an assigned color.
pub const MATERIAL_MAX: u8 = 5;

/// Why a candidate map was rejected.
#[derive(Clone, Copy, Debug, PartialEq, Eq, Structural)]
pub enum MapError {
    /// The dimension is out of range or does not match the cell count.
    BadDimension,
    /// Some cell holds a material identifier with no assigned color.
    UnknownMaterial,
    /// Some border cell is empty, so a ray could escape the grid.
    NotEnclosed,
}

/// The dimension is acceptable and the flat cell vector fills it exactly.
pub open spec fn dim_ok(size: int, len: int) -> bool {
    GRID_MIN <= size <= GRID_MAX && len == size * size
}

/// Every cell value is inside the closed material palette.
pub open spec fn materials_ok(cells: Seq<u8>) -> bool {
    forall|i: int| 0 <= i < cells.len() ==> cells[i] <= MATERIAL_MAX
}

/// `(x, y)` lies on the border of a `size`-by-`size` grid.
pub open spec fn on_border(x: int, y: int, size: int) -> bool {
    x == 0 || x == size - 1 || y == 0 || y == size - 1
}

/// Value of cell `(x, y)` in a flat column-major cell sequence.
pub open spec fn cell_value(cells: Seq<u8>, size: int, x: int, y: int) -> u8 {
    cells[x * size + y]
}

/// Every border cell is a wall.
pub open spec fn enclosed(cells: Seq<u8>, size: int) -> bool {
    forall|x: int, y: int|
        0 <= x < size && 0 <= y < size && on_border(x, y, size) ==> #[trigger] cell_value(
            cells,
            size,
            x,
            y,
        ) != 0
}

/// A validated square occupancy grid, indexed by (column, row).
pub struct GridMap {
    cells: Vec<u8>,
    size: usize,
}

impl GridMap {
    /// The flat cell sequence, in column-major order.
    pub closed spec fn cells_seq(self) -> Seq<u8> {
        self.cells@
    }

    /// The grid dimension `N` of the `N`-by-`N` matrix.
    pub closed spec fn size_spec(self) -> int {
        self.size as int
    }

    /// Value of cell `(col, row)`.
    pub open spec fn cell(self, col: int, row: int) -> u8 {
        cell_value(self.cells_seq(), self.size_spec(), col, row)
    }

    /// Established by the constructor, preserved forever: the grid is a
    /// well-dimensioned square, uses only palette materials, and is
    /// fully enclosed by walls.
    pub open spec fn wf(self) -> bool {
        &&& dim_ok(self.size_spec(), self.cells_seq().len() as int)
        &&& materials_ok(self.cells_seq())
        &&& enclosed(self.cells_seq(), self.size_spec())
    }

    /// Validates and takes ownership of a flat column-major cell vector.
    /// Rejects bad dimensions, out-of-palette materials, and maps whose
    /// border is not entirely walls — each if and only if it occurs, in
    /// that order.
    pub fn new(cells: Vec<u8>, size: usize) -> (r: Result<GridMap, MapError>)
        ensures
            r matches Err(MapError::BadDimension) <==> !dim_ok(
                size as int,
                cells@.len() as int,
            ),
            r matches Err(MapError::UnknownMaterial) <==> (dim_ok(size as int, cells@.len() as int)
                && !materials_ok(cells@)),
            r matches Err(MapError::NotEnclosed) <==> (dim_ok(size as int, cells@.len() as int)
                && materials_ok(cells@) && !enclosed(cells@, size as int)),
            r matches Ok(m) ==> m.wf() && m.cells_seq() == cells@ && m.size_spec() == size as int,
            (dim_ok(size as int, cells@.len() as int) && materials_ok(cells@) && enclosed(
                cells@,
                size as int,
            )) ==> r is Ok,
    {
        if size < GRID_MIN || size > GRID_MAX {
            return Err(MapError::BadDimension);
        }
        proof {
            lemma_square_bounded(size as int);
        }
        let area: usize = size * size;
        if cells.len() != area {
            return Err(MapError::BadDimension);
        }
        let mut i: usize = 0;
        while i < cells.len()
            invariant
                i <= cells@.len(),
                GRID_MIN <= size <= GRID_MAX,
                cells@.len() == size * size,
                forall|j: int| 0 <= j < i ==> cells@[j] <= MATERIAL_MAX,
            decreases cells@.len() - i,
        {
            if cells[i] > MATERIAL_MAX {
                return Err(MapError::UnknownMaterial);
            }
            i += 1;
        }
        let mut k: usize = 0;
        while k < size
            invariant
                k <= size,
                GRID_MIN <= size <= GRID_MAX,
                cells@.len() == size * size,
                materials_ok(cells@),
                forall|x: int, y: int|
                    0 <= x < size && 0 <= y < size && (((y == 0 || y == size - 1) && x < k) || ((x
                        == 0 || x == size - 1) && y < k)) ==> #[trigger] cell_value(
                        cells@,
                        size as int,
                        x,
                        y,
                    ) != 0,
            decreases size - k,
        {
            let last: usize = size - 1;
            proof {
                lemma_flat_index_in_range(k as int, 0, size as int);
                lemma_flat_index_in_range(k as int, last as int, size as int);
                lemma_flat_index_in_range(0, k as int, size as int);
                lemma_flat_index_in_range(last as int, k as int, size as int);
            }
            if cells[k * size + 0] == 0 || cells[k * size + last] == 0 || cells[0 * size + k] == 0
                || cells[last * size + k] == 0 {
                proof {
                    let s = size as int;
                    let ki = k as int;
                    assert(cell_value(cells@, s, ki, 0) == cells@[ki * s + 0]);
                    assert(cell_value(cells@, s, ki, s - 1) == cells@[ki * s + (s - 1)]);
                    assert(cell_value(cells@, s, 0, ki) == cells@[0 * s + ki]);
                    assert(cell_value(cells@, s, s - 1, ki) == cells@[(s - 1) * s + ki]);
                    assert(on_border(ki, 0, s) && on_border(ki, s - 1, s) && on_border(0, ki, s)
                        && on_border(s - 1, ki, s));
                    assert(!enclosed(cells@, s));
                }
                return Err(MapError::NotEnclosed);
            }
            k += 1;
        }
        assert forall|x: int, y: int|
            0 <= x < size && 0 <= y < size && on_border(x, y, size as int) implies #[trigger] cell_value(
            cells@,
            size as int,
            x,
            y,
        ) != 0 by {
            assert(((y == 0 || y == size - 1) && x < size) || ((x == 0 || x == size - 1) && y
                < size));
        }
        assert(enclosed(cells@, size as int));
        Ok(GridMap { cells, size })
    }

    /// Grid dimension `N`.
    pub fn size(&self) -> (r: usize)
        ensures
            r == self.size_spec(),
    {
        self.size
    }

    /// Read cell `(col, row)`; the grid is never written.
    pub fn get(&self, col: usize, row: usize) -> (r: u8)
        requires
            self.wf(),
            col < self.size_spec(),
            row < self.size_spec(),
        ensures
            r == self.cell(col as int, row as int),
    {
        proof {
            lemma_flat_index_in_range(col as int, row as int, self.size_spec());
        }
        self.cells[col * self.size + row]
    }
}

/// Every in-bounds cell of a well-formed map is inside the palette.
pub proof fn lemma_cell_in_palette(m: GridMap, x: int, y: int)
    requires
        m.wf(),
        0 <= x < m.size_spec(),
        0 <= y < m.size_spec(),
    ensures
        m.cell(x, y) <= MATERIAL_MAX,
{
    lemma_flat_index_in_range(x, y, m.size_spec());
}

/// Column-major flattening stays inside the cell vector.
#[verifier::nonlinear]
proof fn lemma_flat_index_in_range(x: int, y: int, size: int)
    requires
        0 <= x < size,
        0 <= y < size,
        size <= GRID_MAX,
    ensures
        0 <= x * size + y < size * size,
        size * size <= GRID_MAX * GRID_MAX,
{
}

/// A bounded dimension has a bounded square.
#[verifier::nonlinear]
proof fn lemma_square_bounded(size: int)
    requires
        0 <= size <= GRID_MAX,
    ensures
        0 <= size * size <= GRID_MAX * GRID_MAX,
{
}

} // verus!
