use vstd::prelude::*;

use crate::vga_buffer::{
    cell_index, Color, ColorCode, ScreenChar, Writer, BUFFER_CELLS, BUFFER_HEIGHT, BUFFER_WIDTH,
};

verus! {

/// Top row of the boundary; the row above it is left for the score.
pub const FIRST_ROW: usize = 1;

/// Bottom row of the boundary.
pub const LAST_ROW: usize = 24;

/// Left column of the boundary.
pub const FIRST_COL: usize = 0;

/// Right column of the boundary.
pub const LAST_COL: usize = 79;

/// Top-left corner glyph.
pub const TOP_LEFT: u8 = 218;

/// Top-right corner glyph.
pub const TOP_RIGHT: u8 = 191;

/// Bottom-left corner glyph.
pub const BOTTOM_LEFT: u8 = 192;

/// Bottom-right corner glyph.
pub const BOTTOM_RIGHT: u8 = 217;

/// Glyph of the top and bottom edges.
pub const EDGE_HORIZONTAL: u8 = 196;

/// Glyph of the left and right edges.
pub const EDGE_VERTICAL: u8 = 179;

/// The boundary glyph of the cell at `row`, `col`, if the cell is on the boundary.
pub open spec fn boundary_glyph(row: int, col: int) -> Option<u8> {
    let top = row == FIRST_ROW;
    let bottom = row == LAST_ROW;
    let left = col == FIRST_COL;
    let right = col == LAST_COL;
    if top && left {
        Some(TOP_LEFT)
    } else if top && right {
        Some(TOP_RIGHT)
    } else if bottom && left {
        Some(BOTTOM_LEFT)
    } else if bottom && right {
        Some(BOTTOM_RIGHT)
    } else if (top || bottom) && FIRST_COL < col < LAST_COL {
        Some(EDGE_HORIZONTAL)
    } else if (left || right) && FIRST_ROW < row < LAST_ROW {
        Some(EDGE_VERTICAL)
    } else {
        None
    }
}

/// The cell at `row`, `col` of `after` is the boundary glyph, white on
/// black, where there is one, and the cell of `before` elsewhere.
pub open spec fn boundary_drawn(before: Seq<ScreenChar>, after: Seq<ScreenChar>, row: int, col: int) -> bool {
    after[cell_index(row, col)] == match boundary_glyph(row, col) {
        Some(g) => ScreenChar {
            ascii_character: g,
            color_code: ColorCode::spec_new(Color::White, Color::Black),
        },
        None => before[cell_index(row, col)],
    }
}

/// The frame around the playfield.
pub struct Boundary {}

impl Boundary {
    /// Draw the frame: corners, the top and bottom edges, and the left and
    /// right edges, white on black.
    pub fn draw(&self, screen: &mut Writer)
        requires
            old(screen).wf(),
        ensures
            final(screen).wf(),
            final(screen).color() == old(screen).color(),
            final(screen).column() == old(screen).column(),
            forall|row: int, col: int|
                0 <= row < BUFFER_HEIGHT && 0 <= col < BUFFER_WIDTH ==> #[trigger] boundary_drawn(
                    old(screen).cells(),
                    final(screen).cells(),
                    row,
                    col,
                ),
    {
        let color_code = ColorCode::new(Color::White, Color::Black);
        let horizontal = ScreenChar { ascii_character: EDGE_HORIZONTAL, color_code };
        let vertical = ScreenChar { ascii_character: EDGE_VERTICAL, color_code };
        screen.write_character_at(ScreenChar { ascii_character: TOP_LEFT, color_code }, FIRST_ROW, FIRST_COL);
        screen.write_character_at(ScreenChar { ascii_character: TOP_RIGHT, color_code }, FIRST_ROW, LAST_COL);
        screen.write_character_at(ScreenChar { ascii_character: BOTTOM_LEFT, color_code }, LAST_ROW, FIRST_COL);
        screen.write_character_at(ScreenChar { ascii_character: BOTTOM_RIGHT, color_code }, LAST_ROW, LAST_COL);
        let ghost corners = screen.cells();
        let mut i: usize = FIRST_COL + 1;
        while i < LAST_COL
            invariant
                FIRST_COL + 1 <= i <= LAST_COL,
                screen.wf(),
                screen.color() == old(screen).color(),
                screen.column() == old(screen).column(),
                horizontal == (ScreenChar { ascii_character: EDGE_HORIZONTAL, color_code }),
                vertical == (ScreenChar { ascii_character: EDGE_VERTICAL, color_code }),
                corners.len() == BUFFER_CELLS,
                forall|row: int, col: int|
                    0 <= row < BUFFER_HEIGHT && 0 <= col < BUFFER_WIDTH ==> #[trigger] screen.cells()[cell_index(row, col)] == if (row == FIRST_ROW
                        || row == LAST_ROW) && 1 <= col < i {
                        horizontal
                    } else {
                        corners[cell_index(row, col)]
                    },
            decreases LAST_COL - i,
        {
            let ghost prev = screen.cells();
            screen.write_character_at(horizontal, FIRST_ROW, i);
            screen.write_character_at(horizontal, LAST_ROW, i);
            i = i + 1;
            assert forall|row: int, col: int|
                0 <= row < BUFFER_HEIGHT && 0 <= col < BUFFER_WIDTH implies #[trigger] screen.cells()[cell_index(row, col)] == if (row == FIRST_ROW
                    || row == LAST_ROW) && 1 <= col < i {
                    horizontal
                } else {
                    corners[cell_index(row, col)]
                } by {
                assert(prev[cell_index(row, col)] == prev[cell_index(row, col)]);
            }
        }
        let ghost edges = screen.cells();
        let mut r: usize = FIRST_ROW + 1;
        while r < LAST_ROW
            invariant
                FIRST_ROW + 1 <= r <= LAST_ROW,
                screen.wf(),
                screen.color() == old(screen).color(),
                screen.column() == old(screen).column(),
                vertical == (ScreenChar { ascii_character: EDGE_VERTICAL, color_code }),
                edges.len() == BUFFER_CELLS,
                forall|row: int, col: int|
                    0 <= row < BUFFER_HEIGHT && 0 <= col < BUFFER_WIDTH ==> #[trigger] screen.cells()[cell_index(row, col)] == if (col == FIRST_COL
                        || col == LAST_COL) && FIRST_ROW + 1 <= row < r {
                        vertical
                    } else {
                        edges[cell_index(row, col)]
                    },
            decreases LAST_ROW - r,
        {
            let ghost prev = screen.cells();
            screen.write_character_at(vertical, r, FIRST_COL);
            screen.write_character_at(vertical, r, LAST_COL);
            r = r + 1;
            assert forall|row: int, col: int|
                0 <= row < BUFFER_HEIGHT && 0 <= col < BUFFER_WIDTH implies #[trigger] screen.cells()[cell_index(row, col)] == if (col == FIRST_COL
                    || col == LAST_COL) && FIRST_ROW + 1 <= row < r {
                    vertical
                } else {
                    edges[cell_index(row, col)]
                } by {
                assert(prev[cell_index(row, col)] == prev[cell_index(row, col)]);
            }
        }
        assert forall|row: int, col: int|
            0 <= row < BUFFER_HEIGHT && 0 <= col < BUFFER_WIDTH implies #[trigger] boundary_drawn(
                old(screen).cells(),
                screen.cells(),
                row,
                col,
            ) by {
            assert(screen.cells()[cell_index(row, col)] == screen.cells()[cell_index(row, col)]);
            assert(edges[cell_index(row, col)] == edges[cell_index(row, col)]);
            assert(corners[cell_index(row, col)] == corners[cell_index(row, col)]);
        }
    }
}

} // verus!
