//! The occupancy grid: a bounded box of cells, each present or absent.

use vstd::prelude::*;

verus! {

/// The most cells a grid may hold. Every face of every cell can then be
/// meshed with 32-bit vertex indices: `24 * MAX_CELLS <= u32::MAX`.
pub const MAX_CELLS: usize = 178_956_970;

/// Why a grid operation was refused.
#[derive(Clone, Copy, Debug, PartialEq, Eq, Structural)]
pub enum GridError {
    /// A grid was requested with a dimension that is zero or negative.
    InvalidDimensions,
    /// A cell outside the grid was to be written.
    OutOfBounds,
}

/// What a grid is: its three dimensions and the set of occupied coordinates.
#[verifier::ext_equal]
pub struct GridModel {
    pub width: int,
    pub height: int,
    pub depth: int,
    pub occupied: Set<(int, int, int)>,
}

impl GridModel {
    /// The grid of the given dimensions in which no cell is occupied.
    pub open spec fn empty(width: int, height: int, depth: int) -> GridModel {
        GridModel { width, height, depth, occupied: Set::empty() }
    }

    /// Whether `(x, y, z)` names a cell of the grid.
    pub open spec fn in_bounds(self, x: int, y: int, z: int) -> bool {
        0 <= x < self.width && 0 <= y < self.height && 0 <= z < self.depth
    }

    /// Whether the cell at `(x, y, z)` is occupied. Coordinates outside the
    /// grid are air.
    pub open spec fn is_occupied(self, x: int, y: int, z: int) -> bool {
        self.occupied.contains((x, y, z))
    }

    /// The number of cells.
    pub open spec fn volume(self) -> int {
        self.width * self.height * self.depth
    }

    /// Every dimension is at least one, the grid holds at most [`MAX_CELLS`]
    /// cells, and nothing outside the grid is occupied.
    pub open spec fn wf(self) -> bool {
        &&& 1 <= self.width
        &&& 1 <= self.height
        &&& 1 <= self.depth
        &&& self.volume() <= MAX_CELLS
        &&& forall|c: (int, int, int)| #[trigger]
            self.occupied.contains(c) ==> self.in_bounds(c.0, c.1, c.2)
    }

    /// The grid after the cell at `(x, y, z)` has been made occupied
    /// (`value` true) or empty (`value` false).
    pub open spec fn with_cell(self, x: int, y: int, z: int, value: bool) -> GridModel {
        GridModel {
            occupied: if value {
                self.occupied.insert((x, y, z))
            } else {
                self.occupied.remove((x, y, z))
            },
            ..self
        }
    }

    /// Whether every cell of the grid is occupied.
    pub open spec fn is_solid(self) -> bool {
        forall|c: (int, int, int)|
            self.in_bounds(c.0, c.1, c.2) ==> #[trigger] self.occupied.contains(c)
    }

    /// Whether no cell of the grid is occupied.
    pub open spec fn is_empty(self) -> bool {
        forall|c: (int, int, int)| !(#[trigger] self.occupied.contains(c))
    }

    /// Outside a well-formed grid everything is air.
    pub proof fn lemma_outside_is_air(self, x: int, y: int, z: int)
        requires
            self.wf(),
            !self.in_bounds(x, y, z),
        ensures
            !self.is_occupied(x, y, z),
    {
    }

    /// No dimension of a well-formed grid exceeds [`MAX_CELLS`], so each one,
    /// and each one plus one, fits in an `i32`.
    pub proof fn lemma_dimensions_bounded(self)
        requires
            self.wf(),
        ensures
            self.width <= MAX_CELLS,
            self.height <= MAX_CELLS,
            self.depth <= MAX_CELLS,
    {
        let (w, h, d) = (self.width, self.height, self.depth);
        assert(w <= w * h * d && h <= w * h * d && d <= w * h * d) by (nonlinear_arith)
            requires
                1 <= w,
                1 <= h,
                1 <= d,
        ;
    }
}

/// Position of a cell in row-major storage with `height` rows of `depth` cells
/// per slab.
spec fn slot_of(height: int, depth: int, x: int, y: int, z: int) -> int {
    (x * height + y) * depth + z
}

/// The slot of a cell of the grid lies within the storage, and the partial
/// products on the way to it are bounded by the number of cells.
proof fn lemma_slot_in_range(width: int, height: int, depth: int, x: int, y: int, z: int)
    by (nonlinear_arith)
    requires
        0 <= x < width,
        0 <= y < height,
        0 <= z < depth,
    ensures
        0 <= x * height <= x * height + y < width * height,
        0 <= (x * height + y) * depth,
        0 <= slot_of(height, depth, x, y, z) < width * height * depth,
        width * height <= width * height * depth,
{
    assert(x * height + y + 1 <= width * height);
    assert((x * height + y + 1) * depth <= (width * height) * depth);
}

/// A number has one quotient and one remainder by `base`.
proof fn lemma_digit_unique(a: int, b: int, r: int, s: int, base: int)
    by (nonlinear_arith)
    requires
        0 <= r < base,
        0 <= s < base,
        a * base + r == b * base + s,
    ensures
        a == b,
        r == s,
{
    assert((a - b) * base == s - r);
    if a > b {
        assert((a - b) * base >= base);
    } else if a < b {
        assert((b - a) * base >= base);
    }
}

/// Two cells with the same slot are the same cell.
proof fn lemma_slot_injective(
    height: int,
    depth: int,
    x1: int,
    y1: int,
    z1: int,
    x2: int,
    y2: int,
    z2: int,
)
    requires
        0 <= y1 < height,
        0 <= y2 < height,
        0 <= z1 < depth,
        0 <= z2 < depth,
        slot_of(height, depth, x1, y1, z1) == slot_of(height, depth, x2, y2, z2),
    ensures
        x1 == x2,
        y1 == y2,
        z1 == z2,
{
    lemma_digit_unique(x1 * height + y1, x2 * height + y2, z1, z2, depth);
    lemma_digit_unique(x1, x2, y1, y2, height);
}

/// A dense occupancy grid over `[0, width) x [0, height) x [0, depth)`.
#[derive(Debug)]
pub struct VoxelGrid {
    width: i32,
    height: i32,
    depth: i32,
    cells: Vec<bool>,
}

impl View for VoxelGrid {
    type V = GridModel;

    closed spec fn view(&self) -> GridModel {
        GridModel {
            width: self.width as int,
            height: self.height as int,
            depth: self.depth as int,
            occupied: Set::new(
                |c: (int, int, int)|
                    0 <= c.0 < self.width && 0 <= c.1 < self.height && 0 <= c.2 < self.depth
                        && self.cells@[slot_of(self.height as int, self.depth as int, c.0, c.1, c.2)],
            ),
        }
    }
}

impl VoxelGrid {
    /// The storage holds exactly one flag per cell.
    pub closed spec fn storage_ok(&self) -> bool {
        self.cells@.len() == self.width * self.height * self.depth
    }

    /// The grid's invariant: its storage matches its dimensions and its
    /// model is a well-formed grid.
    pub open spec fn wf(&self) -> bool {
        self.storage_ok() && self@.wf()
    }

    /// Whether dimensions that are all positive describe at most
    /// [`MAX_CELLS`] cells. Dimensions of which one is zero or negative fit:
    /// no grid is made of them.
    pub open spec fn spec_fits(width: int, height: int, depth: int) -> bool {
        width > 0 && height > 0 && depth > 0 ==> width * height * depth <= MAX_CELLS
    }

    /// Tells whether [`VoxelGrid::new`] may be called with these dimensions.
    pub fn fits(width: i32, height: i32, depth: i32) -> (b: bool)
        ensures
            b == Self::spec_fits(width as int, height as int, depth as int),
    {
        if width <= 0 || height <= 0 || depth <= 0 {
            return true;
        }
        assert(width * height <= 0x7fff_ffff * 0x7fff_ffff) by (nonlinear_arith)
            requires
                0 < width <= 0x7fff_ffff,
                0 < height <= 0x7fff_ffff,
        ;
        let slab: u64 = (width as u64) * (height as u64);
        if slab > MAX_CELLS as u64 {
            assert(width * height <= width * height * depth) by (nonlinear_arith)
                requires
                    0 < width,
                    0 < height,
                    0 < depth,
            ;
            return false;
        }
        assert(slab * depth <= MAX_CELLS * 0x7fff_ffff) by (nonlinear_arith)
            requires
                0 <= slab <= MAX_CELLS,
                0 < depth <= 0x7fff_ffff,
        ;
        slab * (depth as u64) <= MAX_CELLS as u64
    }

    /// Makes a grid of the given dimensions with every cell empty.
    ///
    /// Fails with [`GridError::InvalidDimensions`] exactly when a dimension
    /// is zero or negative. Positive dimensions must describe at most
    /// [`MAX_CELLS`] cells, which [`VoxelGrid::fits`] tells.
    pub fn new(width: i32, height: i32, depth: i32) -> (r: Result<VoxelGrid, GridError>)
        requires
            Self::spec_fits(width as int, height as int, depth as int),
        ensures
            match r {
                Ok(grid) => {
                    &&& width > 0 && height > 0 && depth > 0
                    &&& grid.wf()
                    &&& grid@ == GridModel::empty(width as int, height as int, depth as int)
                },
                Err(e) => {
                    &&& e == GridError::InvalidDimensions
                    &&& (width <= 0 || height <= 0 || depth <= 0)
                },
            },
    {
        if width <= 0 || height <= 0 || depth <= 0 {
            return Err(GridError::InvalidDimensions);
        }
        proof {
            lemma_slot_in_range(
                width as int,
                height as int,
                depth as int,
                width - 1,
                height - 1,
                depth - 1,
            );
        }
        let slab: usize = (width as usize) * (height as usize);
        let count: usize = slab * (depth as usize);
        let cells: Vec<bool> = vec![false; count];
        let grid = VoxelGrid { width, height, depth, cells };
        proof {
            assert forall|c: (int, int, int)| !(#[trigger] grid@.occupied.contains(c)) by {
                if 0 <= c.0 < width && 0 <= c.1 < height && 0 <= c.2 < depth {
                    lemma_slot_in_range(width as int, height as int, depth as int, c.0, c.1, c.2);
                }
            }
        }
        Ok(grid)
    }

    /// The extent of the grid along `x`.
    pub fn width(&self) -> (w: i32)
        ensures
            w == self@.width,
    {
        self.width
    }

    /// The extent of the grid along `y`.
    pub fn height(&self) -> (h: i32)
        ensures
            h == self@.height,
    {
        self.height
    }

    /// The extent of the grid along `z`.
    pub fn depth(&self) -> (d: i32)
        ensures
            d == self@.depth,
    {
        self.depth
    }

    /// Where the flag of an in-bounds cell is stored.
    fn slot(&self, x: i32, y: i32, z: i32) -> (i: usize)
        requires
            self.wf(),
            self@.in_bounds(x as int, y as int, z as int),
        ensures
            i == slot_of(self.height as int, self.depth as int, x as int, y as int, z as int),
            i < self.cells@.len(),
    {
        proof {
            lemma_slot_in_range(
                self.width as int,
                self.height as int,
                self.depth as int,
                x as int,
                y as int,
                z as int,
            );
        }
        let row: usize = (x as usize) * (self.height as usize) + (y as usize);
        row * (self.depth as usize) + (z as usize)
    }

    /// Whether the cell at `(x, y, z)` is occupied. Any coordinate outside
    /// the grid is air: the answer there is `false`.
    pub fn is_occupied(&self, x: i32, y: i32, z: i32) -> (b: bool)
        requires
            self.wf(),
        ensures
            b == self@.is_occupied(x as int, y as int, z as int),
    {
        if x < 0 || y < 0 || z < 0 || x >= self.width || y >= self.height || z >= self.depth {
            return false;
        }
        let i = self.slot(x, y, z);
        self.cells[i]
    }

    /// Marks the cell at `(x, y, z)` as occupied or empty and leaves every
    /// other cell as it was.
    ///
    /// Fails with [`GridError::OutOfBounds`] exactly when the coordinate is
    /// outside the grid; the grid is then unchanged.
    pub fn set(&mut self, x: i32, y: i32, z: i32, value: bool) -> (r: Result<(), GridError>)
        requires
            old(self).wf(),
        ensures
            final(self).wf(),
            match r {
                Ok(_) => {
                    &&& old(self)@.in_bounds(x as int, y as int, z as int)
                    &&& final(self)@ == old(self)@.with_cell(x as int, y as int, z as int, value)
                },
                Err(e) => {
                    &&& e == GridError::OutOfBounds
                    &&& !old(self)@.in_bounds(x as int, y as int, z as int)
                    &&& final(self)@ == old(self)@
                },
            },
    {
        if x < 0 || y < 0 || z < 0 || x >= self.width || y >= self.height || z >= self.depth {
            return Err(GridError::OutOfBounds);
        }
        let i = self.slot(x, y, z);
        self.cells.set(i, value);
        proof {
            let h = self.height as int;
            let d = self.depth as int;
            let target = old(self)@.with_cell(x as int, y as int, z as int, value);
            assert forall|c: (int, int, int)|
                self@.occupied.contains(c) == target.occupied.contains(c) by {
                if old(self)@.in_bounds(c.0, c.1, c.2) && c != (x as int, y as int, z as int) {
                    lemma_slot_in_range(self.width as int, h, d, c.0, c.1, c.2);
                    if slot_of(h, d, c.0, c.1, c.2) == i {
                        lemma_slot_injective(h, d, c.0, c.1, c.2, x as int, y as int, z as int);
                    }
                }
            }
        }
        Ok(())
    }
}

} // verus!
