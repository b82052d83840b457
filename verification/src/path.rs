use vstd::prelude::*;

verus! {

/// The width and height of the grid a path finder searches, as the bindings
/// record them when the path finder is made.
#[derive(Debug, Clone, Copy, PartialEq, Eq, Structural)]
pub struct PathGrid {
    pub width: isize,
    pub height: isize,
}

/// `point` is a cell of a `width` by `height` grid.
pub open spec fn grid_contains(width: int, height: int, point: (isize, isize)) -> bool {
    &&& 0 <= point.0 < width
    &&& 0 <= point.1 < height
}

/// `index` is a position on a path of `len` steps.
pub open spec fn index_on_path(index: int, len: int) -> bool {
    0 <= index < len
}

/// The step a walk along a path reports: the next cell when libtcod moved
/// (a non-zero result), nothing when the walk is over or blocked.
pub open spec fn walk_step_of(walked: u8, x: i32, y: i32) -> Option<(isize, isize)> {
    if walked != 0 {
        Some((x as isize, y as isize))
    } else {
        None
    }
}

impl PathGrid {
    pub fn new(width: isize, height: isize) -> (g: PathGrid)
        ensures
            g.width == width,
            g.height == height,
    {
        PathGrid { width, height }
    }

    /// Whether `point` lies on the grid; a path finder is only asked about such cells.
    pub fn contains(&self, point: (isize, isize)) -> (r: bool)
        ensures
            r == grid_contains(self.width as int, self.height as int, point),
            r == (0 <= point.0 && point.0 < self.width && 0 <= point.1 && point.1 < self.height),
    {
        let (x, y) = point;
        0 <= x && 0 <= y && x < self.width && y < self.height
    }
}

/// Whether `index` is a position on a path of `len` steps; libtcod is only
/// asked for the cells at such positions.
pub fn path_index_in_range(index: isize, len: isize) -> (r: bool)
    ensures
        r == index_on_path(index as int, len as int),
        r == (0 <= index && index < len),
{
    !(index < 0 || index >= len)
}

/// The step of a walk, from libtcod's answer and the cell it wrote.
pub fn walk_step(walked: u8, x: i32, y: i32) -> (r: Option<(isize, isize)>)
    ensures
        r == walk_step_of(walked, x, y),
        r is None <==> walked == 0,
        walked != 0 ==> r == Some((x as isize, y as isize)),
{
    if walked != 0 {
        Some((x as isize, y as isize))
    } else {
        None
    }
}

/// A cell lies on a grid exactly when its x coordinate is below the grid's
/// width and its y coordinate below its height, both from 0, whatever the
/// shape of the grid.
pub proof fn lemma_grid_contains_bounds(g: PathGrid, point: (isize, isize))
    ensures
        grid_contains(g.width as int, g.height as int, point) <==> (0 <= point.0 && point.0
            < g.width && 0 <= point.1 && point.1 < g.height),
{
}

/// A position lies on a path exactly when it is from 0 up to, not including, the path's length.
pub proof fn lemma_index_on_path_bounds(index: isize, len: isize)
    ensures
        index_on_path(index as int, len as int) <==> (0 <= index && index < len),
{
}

/// A walk yields a step exactly when libtcod reports that it moved, and the
/// step is then the cell libtcod wrote, whichever cell that is.
pub proof fn lemma_walk_step_is_reported_cell(walked: u8, x: i32, y: i32)
    ensures
        walk_step_of(walked, x, y) is None <==> walked == 0,
        walked != 0 ==> walk_step_of(walked, x, y) == Some((x as isize, y as isize)),
{
}

/// A cell on the grid has coordinates that libtcod's `int` can hold when the
/// grid's sides can: the coordinates handed on are the ones asked about.
pub proof fn lemma_grid_cells_fit_c_int(g: PathGrid, point: (isize, isize))
    requires
        g.width <= i32::MAX,
        g.height <= i32::MAX,
        grid_contains(g.width as int, g.height as int, point),
    ensures
        0 <= point.0 <= i32::MAX,
        0 <= point.1 <= i32::MAX,
        point.0 as i32 == point.0,
        point.1 as i32 == point.1,
{
}

} // verus!
