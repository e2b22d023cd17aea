//! Screens, and their partition into a grid of equal cells.

use vstd::prelude::*;

verus! {

/// A cell of a grid, as (column, row); (0, 0) is the top-left cell.
pub type GridCell = (u8, u8);

/// The size of a screen in pixels.
#[derive(Clone, Copy, Debug, PartialEq, Eq, Structural)]
pub struct ScreenGeometry {
    pub height: u32,
    pub width: u32,
}

/// What the platform reports of one attached display.
#[derive(Clone, Copy, Debug, PartialEq, Eq, Structural)]
pub struct Display {
    pub geometry: ScreenGeometry,
    pub is_primary: bool,
}

/// A screen of `width` x `height` pixels cut into `n_horizontal` columns and
/// `n_vertical` rows of equal size.
#[derive(Clone, Copy, Debug, PartialEq, Eq, Structural)]
pub struct Grid {
    pub width: u32,
    pub height: u32,
    pub n_horizontal: u8,
    pub n_vertical: u8,
}

/// Along one axis, part `index` of `extent` pixels cut into `parts` equal
/// parts spans `[index * extent / parts, (index + 1) * extent / parts]`, both
/// bounds included; `p` lies in it. Multiplying through by `parts` keeps the
/// comparison exact.
pub open spec fn span_contains(index: int, extent: int, parts: int, p: int) -> bool {
    index * extent <= p * parts <= (index + 1) * extent
}

fn span_contains_exec(index: u8, extent: u32, parts: u8, p: i32) -> (r: bool)
    ensures
        r == span_contains(index as int, extent as int, parts as int, p as int),
{
    proof {
        let (pi, ni) = (p as int, parts as int);
        assert(-0x8000_0000 * 0xff <= pi * ni <= 0x7fff_ffff * 0xff) by (nonlinear_arith)
            requires
                -0x8000_0000 <= pi <= 0x7fff_ffff,
                0 <= ni <= 0xff,
        ;
        let (ii, ei) = (index as int, extent as int);
        assert(0 <= (ii + 1) * ei <= 0x100 * 0xffff_ffff) by (nonlinear_arith)
            requires
                0 <= ii <= 0xff,
                0 <= ei <= 0xffff_ffff,
        ;
        assert(0 <= ii * ei <= (ii + 1) * ei) by (nonlinear_arith)
            requires
                0 <= ii,
                0 <= ei,
        ;
    }
    let scaled: i64 = p as i64 * parts as i64;
    let low: i64 = index as i64 * extent as i64;
    let high: i64 = (index as i64 + 1) * extent as i64;
    low <= scaled && scaled <= high
}

impl Grid {
    /// The point `(x, y)` lies in `cell`, its edges included.
    pub open spec fn contains_spec(self, cell: GridCell, x: int, y: int) -> bool {
        &&& span_contains(cell.0 as int, self.width as int, self.n_horizontal as int, x)
        &&& span_contains(cell.1 as int, self.height as int, self.n_vertical as int, y)
    }

    pub fn new(width: u32, height: u32, n_horizontal: u8, n_vertical: u8) -> (r: Grid)
        ensures
            r == (Grid { width, height, n_horizontal, n_vertical }),
    {
        Grid { width, height, n_horizontal, n_vertical }
    }

    /// Whether the point `(x, y)` lies in `cell`; a point on the edge shared
    /// by two cells lies in both.
    pub fn contains(&self, cell: GridCell, x: i32, y: i32) -> (r: bool)
        ensures
            r == self.contains_spec(cell, x as int, y as int),
    {
        span_contains_exec(cell.0, self.width, self.n_horizontal, x) && span_contains_exec(
            cell.1,
            self.height,
            self.n_vertical,
            y,
        )
    }
}

/// A point on the edge between two neighbouring cells lies in both, so that
/// it is classified the same way whichever of the two is asked about.
pub proof fn lemma_shared_edge(grid: Grid, cell: GridCell, x: int, y: int)
    requires
        grid.contains_spec(cell, x, y),
        cell.0 + 1 < grid.n_horizontal,
        x * grid.n_horizontal == (cell.0 + 1) * grid.width,
    ensures
        grid.contains_spec(((cell.0 + 1) as u8, cell.1), x, y),
{
    assert((cell.0 + 1) * grid.width <= (cell.0 + 2) * grid.width) by (nonlinear_arith)
        requires
            grid.width >= 0,
    ;
}

/// `i` is the last index of `displays` that holds a primary display.
pub open spec fn is_last_primary(displays: Seq<Display>, i: int) -> bool {
    &&& 0 <= i < displays.len()
    &&& displays[i].is_primary
    &&& forall|j: int| i < j < displays.len() ==> !(#[trigger] displays[j]).is_primary
}

/// The geometry of the primary display: the last one marked primary, or
/// `None` where none is.
pub fn primary_display(displays: &Vec<Display>) -> (r: Option<ScreenGeometry>)
    ensures
        match r {
            Some(g) => exists|i: int|
                is_last_primary(displays@, i) && (#[trigger] displays@[i]).geometry == g,
            None => forall|i: int| 0 <= i < displays@.len() ==> !(#[trigger] displays@[i]).is_primary,
        },
{
    let mut i: usize = displays.len();
    while i > 0
        invariant
            i <= displays@.len(),
            forall|j: int| i <= j < displays@.len() ==> !(#[trigger] displays@[j]).is_primary,
        decreases i,
    {
        i = i - 1;
        if displays[i].is_primary {
            assert(is_last_primary(displays@, i as int));
            return Some(displays[i].geometry);
        }
    }
    None
}

} // verus!
