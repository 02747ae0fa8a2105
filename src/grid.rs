//! The play area: a rectangle of cells, each with its own pixel rectangle.

use vstd::prelude::*;
use vstd::arithmetic::div_mod::lemma_fundamental_div_mod_converse;
use vstd::arithmetic::mul::lemma_mul_inequality;

verus! {

/// Width of the window, in pixels.
pub const WIDTH: u32 = 800;
/// Height of the window, in pixels.
pub const HEIGHT: u32 = 600;
/// Margin between the window's edge and the play area, in pixels.
pub const SPACING: u32 = 20;
/// Side of one cell, in pixels.
pub const CELL_SPACE: u32 = 20;

/// A rectangle in device pixel space: top-left corner, width and height.
#[derive(Clone, Copy, Debug, PartialEq, Eq, Structural)]
pub struct Rect {
    pub x: i32,
    pub y: i32,
    pub w: u32,
    pub h: u32,
}

/// The address of one cell of the play area: column `x`, row `y`.
#[derive(Clone, Copy, Debug, PartialEq, Eq, Structural)]
pub struct Coordinate {
    pub x: u32,
    pub y: u32,
}

/// The play area: `hcells` columns and `vcells` rows of square cells of side
/// `cell` pixels, inside a margin of `spacing` pixels. `grid` holds the pixel
/// rectangle of every cell in row-major order.
pub struct GameArea {
    pub hcells: u32,
    pub vcells: u32,
    pub spacing: u32,
    pub cell: u32,
    pub game_area: Rect,
    pub grid: Vec<Rect>,
}

/// Whether `c` is a cell of a `hcells` by `vcells` area.
pub open spec fn in_bounds(c: Coordinate, hcells: u32, vcells: u32) -> bool {
    c.x < hcells && c.y < vcells
}

impl GameArea {
    /// Whether `c` is one of this area's cells.
    pub open spec fn contains(&self, c: Coordinate) -> bool {
        in_bounds(c, self.hcells, self.vcells)
    }

    /// The pixel rectangle of the cell at `c`.
    pub open spec fn rect_at(&self, c: Coordinate) -> Rect {
        Rect {
            x: (self.spacing + c.x * self.cell) as i32,
            y: (self.spacing + c.y * self.cell) as i32,
            w: self.cell,
            h: self.cell,
        }
    }

    /// The cell at position `i` of a row-major walk over the area.
    pub open spec fn cell_of_index(&self, i: int) -> Coordinate {
        Coordinate { x: (i % self.hcells as int) as u32, y: (i / self.hcells as int) as u32 }
    }

    /// At least one cell each way, pixel positions that fit in an `i32` up to
    /// one cell past the last row and column, and the precomputed rectangles.
    pub open spec fn wf(&self) -> bool {
        &&& self.hcells > 0
        &&& self.vcells > 0
        &&& self.cell > 0
        &&& self.spacing + self.hcells * self.cell <= i32::MAX
        &&& self.spacing + self.vcells * self.cell <= i32::MAX
        &&& self.grid@.len() == self.hcells * self.vcells
        &&& forall|i: int|
            0 <= i < self.grid@.len() ==> #[trigger] self.grid@[i] == self.rect_at(
                self.cell_of_index(i),
            )
    }

    /// Builds the play area of a `width` by `height` window with a margin of
    /// `spacing` pixels and cells of side `cell`. There is no area when a
    /// single cell does not fit inside the margin either way.
    pub fn build(width: u32, height: u32, spacing: u32, cell: u32) -> (r: Option<GameArea>)
        requires
            width <= i32::MAX,
            height <= i32::MAX,
        ensures
            r is Some <==> (cell > 0 && width >= 2 * spacing + cell && height >= 2 * spacing
                + cell),
            r matches Some(g) ==> {
                &&& g.wf()
                &&& g.hcells == (width - 2 * spacing) / (cell as int)
                &&& g.vcells == (height - 2 * spacing) / (cell as int)
                &&& g.spacing == spacing
                &&& g.cell == cell
                &&& g.game_area == (Rect {
                    x: spacing as i32,
                    y: spacing as i32,
                    w: (width - 2 * spacing) as u32,
                    h: (height - 2 * spacing) as u32,
                })
            },
    {
        if cell == 0 || (width as u64) < 2 * (spacing as u64) + (cell as u64) || (height as u64)
            < 2 * (spacing as u64) + (cell as u64) {
            return None;
        }
        let inner_w: u32 = width - 2 * spacing;
        let inner_h: u32 = height - 2 * spacing;
        let hcells: u32 = inner_w / cell;
        let vcells: u32 = inner_h / cell;
        proof {
            assert(hcells * cell <= inner_w && hcells >= 1) by (nonlinear_arith)
                requires
                    hcells == inner_w / cell,
                    cell > 0,
                    inner_w >= cell,
            ;
            assert(vcells * cell <= inner_h && vcells >= 1) by (nonlinear_arith)
                requires
                    vcells == inner_h / cell,
                    cell > 0,
                    inner_h >= cell,
            ;
        }
        let mut display = GameArea {
            hcells,
            vcells,
            spacing,
            cell,
            game_area: Rect { x: spacing as i32, y: spacing as i32, w: inner_w, h: inner_h },
            grid: Vec::new(),
        };
        for vcell in 0..vcells
            invariant
                display.hcells == hcells,
                display.vcells == vcells,
                display.spacing == spacing,
                display.cell == cell,
                display.game_area == (Rect {
                    x: spacing as i32,
                    y: spacing as i32,
                    w: inner_w,
                    h: inner_h,
                }),
                hcells > 0,
                cell > 0,
                spacing + hcells * cell <= i32::MAX,
                spacing + vcells * cell <= i32::MAX,
                display.grid@.len() == vcell * hcells,
                forall|i: int|
                    0 <= i < display.grid@.len() ==> #[trigger] display.grid@[i]
                        == display.rect_at(display.cell_of_index(i)),
        {
            for hcell in 0..hcells
                invariant
                    display.hcells == hcells,
                    display.vcells == vcells,
                    display.spacing == spacing,
                    display.cell == cell,
                    display.game_area == (Rect {
                        x: spacing as i32,
                        y: spacing as i32,
                        w: inner_w,
                        h: inner_h,
                    }),
                    hcells > 0,
                    cell > 0,
                    vcell < vcells,
                    spacing + hcells * cell <= i32::MAX,
                    spacing + vcells * cell <= i32::MAX,
                    display.grid@.len() == vcell * hcells + hcell,
                    forall|i: int|
                        0 <= i < display.grid@.len() ==> #[trigger] display.grid@[i]
                            == display.rect_at(display.cell_of_index(i)),
            {
                let c = Coordinate { x: hcell, y: vcell };
                let ghost n = display.grid@.len() as int;
                proof {
                    lemma_fundamental_div_mod_converse(n, hcells as int, vcell as int, hcell as int);
                }
                match create_rect(&display, &c) {
                    Some(r) => {
                        display.grid.push(r);
                    },
                    None => {},
                }
            }
            proof {
                assert((vcell + 1) * hcells == vcell * hcells + hcells) by (nonlinear_arith);
            }
        }
        proof {
            assert(vcells * hcells == hcells * vcells) by (nonlinear_arith);
        }
        Some(display)
    }
}

/// The play area of the game's window: 38 columns and 28 rows.
pub fn create_grid() -> (r: GameArea)
    ensures
        r.wf(),
        r.hcells == 38,
        r.vcells == 28,
        r.spacing == SPACING,
        r.cell == CELL_SPACE,
        r.game_area == (Rect {
            x: SPACING as i32,
            y: SPACING as i32,
            w: (WIDTH - 2 * SPACING) as u32,
            h: (HEIGHT - 2 * SPACING) as u32,
        }),
{
    let display = GameArea::build(WIDTH, HEIGHT, SPACING, CELL_SPACE);
    display.unwrap()
}

/// The pixel rectangle of the cell at `coord`, or `None` past the area. A
/// coordinate one past the last column or row still has a rectangle: only
/// `x > hcells` or `y > vcells` is refused.
pub fn create_rect(display: &GameArea, coord: &Coordinate) -> (r: Option<Rect>)
    requires
        display.spacing + display.hcells * display.cell <= i32::MAX,
        display.spacing + display.vcells * display.cell <= i32::MAX,
    ensures
        r == (if coord.x > display.hcells || coord.y > display.vcells {
            None
        } else {
            Some(display.rect_at(*coord))
        }),
{
    if coord.x > display.hcells {
        return None;
    }
    if coord.y > display.vcells {
        return None;
    }
    proof {
        lemma_mul_inequality(coord.x as int, display.hcells as int, display.cell as int);
        lemma_mul_inequality(coord.y as int, display.vcells as int, display.cell as int);
    }
    let px: u32 = display.spacing + coord.x * display.cell;
    let py: u32 = display.spacing + coord.y * display.cell;
    Some(Rect { x: px as i32, y: py as i32, w: display.cell, h: display.cell })
}

} // verus!
