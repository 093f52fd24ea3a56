use vstd::prelude::*;

use crate::boundary::boundary_glyph;
use crate::prng::{lcg_step, PseudoRandomNumberGenerator};
use crate::ring_buffer::{triples, RingBuffer};
use crate::score::{digits_effect, Score, SCORE_COL, SCORE_LABEL, SCORE_ROW};
use crate::vga_buffer::{
    cell_index, text_effect, Color, ColorCode, ScreenChar, Writer, BUFFER_HEIGHT, BUFFER_WIDTH,
};
use vstd::string::StringSliceAdditionalSpecFns;

verus! {

/// Most cells the body can take: the playfield inside the boundary.
pub const MAX_SNAKE_SIZE: usize = 1716;

/// Head glyph when moving up.
pub const HEAD_UP: u8 = 30;

/// Head glyph when moving left.
pub const HEAD_LEFT: u8 = 17;

/// Head glyph when moving right.
pub const HEAD_RIGHT: u8 = 16;

/// Head glyph when moving down.
pub const HEAD_DOWN: u8 = 31;

/// Corner glyph joining the cell on the left with the cell above.
pub const CORNER_LEFT_UP: u8 = 217;

/// Corner glyph joining the cell on the left with the cell below.
pub const CORNER_LEFT_DOWN: u8 = 191;

/// Corner glyph joining the cell on the right with the cell above.
pub const CORNER_RIGHT_UP: u8 = 192;

/// Corner glyph joining the cell on the right with the cell below.
pub const CORNER_RIGHT_DOWN: u8 = 218;

/// Glyph of a body cell between its left and right neighbours.
pub const HORIZONTAL: u8 = 196;

/// Glyph of a body cell between its upper and lower neighbours.
pub const VERTICAL: u8 = 179;

/// Code point of an empty cell.
pub const EMPTY: u8 = 32;

/// Code point of a food marker.
pub const FOOD: u8 = 3;

/// Row of the food marker placed before the game starts.
pub const FIRST_FOOD_ROW: usize = 3;

/// Column of the food marker placed before the game starts.
pub const FIRST_FOOD_COL: usize = 19;

/// First row of the playfield inside the boundary.
pub const PLAYFIELD_FIRST_ROW: u64 = 2;

/// Number of rows of the playfield inside the boundary.
pub const PLAYFIELD_ROWS: u64 = 22;

/// First column of the playfield inside the boundary.
pub const PLAYFIELD_FIRST_COL: u64 = 1;

/// Number of columns of the playfield inside the boundary.
pub const PLAYFIELD_COLS: u64 = 78;

/// A direction of movement on the grid.
#[derive(Debug, Clone, Copy, PartialEq, Eq, Structural)]
pub enum Direction {
    Left,
    Right,
    Up,
    Down,
}

/// The direction that points the other way.
pub open spec fn opposite(d: Direction) -> Direction {
    match d {
        Direction::Left => Direction::Right,
        Direction::Right => Direction::Left,
        Direction::Up => Direction::Down,
        Direction::Down => Direction::Up,
    }
}

impl Direction {
    /// The direction that points the other way.
    pub fn opposite(self) -> (r: Direction)
        ensures
            r == opposite(self),
    {
        match self {
            Direction::Left => Direction::Right,
            Direction::Right => Direction::Left,
            Direction::Up => Direction::Down,
            Direction::Down => Direction::Up,
        }
    }
}

/// A cell of the grid.
#[derive(Debug, Clone, Copy, PartialEq, Eq, Structural)]
pub struct Pixel {
    pub row: usize,
    pub col: usize,
}

/// The cell lies inside the grid.
pub open spec fn on_grid(row: int, col: int) -> bool {
    0 <= row < BUFFER_HEIGHT && 0 <= col < BUFFER_WIDTH
}

/// The direction a tick moves in: a pending turn is taken unless it would
/// reverse the snake.
pub open spec fn effective_direction(current: Direction, pending: Option<Direction>) -> Direction {
    match pending {
        Some(p) => if p == opposite(current) {
            current
        } else {
            p
        },
        None => current,
    }
}

/// The cell one step from `p` in direction `d`.
pub open spec fn step(p: Pixel, d: Direction) -> (int, int) {
    match d {
        Direction::Left => (p.row as int, p.col - 1),
        Direction::Right => (p.row as int, p.col + 1),
        Direction::Up => (p.row - 1, p.col as int),
        Direction::Down => (p.row + 1, p.col as int),
    }
}

/// `p` lies one step from `from` in direction `d`.
pub open spec fn at_step(p: Pixel, from: Pixel, d: Direction) -> bool {
    p.row == step(from, d).0 && p.col == step(from, d).1
}

/// A glyph in white on black.
pub open spec fn white(code: u8) -> ScreenChar {
    ScreenChar { ascii_character: code, color_code: ColorCode::spec_new(Color::White, Color::Black) }
}

/// The food marker, red on black.
pub open spec fn food_char() -> ScreenChar {
    ScreenChar { ascii_character: FOOD, color_code: ColorCode::spec_new(Color::Red, Color::Black) }
}

/// The glyph that clears a cell.
pub open spec fn empty_char() -> ScreenChar {
    ScreenChar { ascii_character: EMPTY, color_code: ColorCode::spec_new(Color::Black, Color::Black) }
}

/// `cells` with the cell of `p` set to `c`.
pub open spec fn put(cells: Seq<ScreenChar>, p: Pixel, c: ScreenChar) -> Seq<ScreenChar> {
    cells.update(cell_index(p.row as int, p.col as int), c)
}

/// Glyph of the head when moving in direction `d`.
pub open spec fn head_glyph(d: Direction) -> u8 {
    match d {
        Direction::Left => HEAD_LEFT,
        Direction::Right => HEAD_RIGHT,
        Direction::Up => HEAD_UP,
        Direction::Down => HEAD_DOWN,
    }
}

/// Glyph of the cell behind the head after a move that changed direction
/// from `from` to `to`.
pub open spec fn neck_glyph(from: Direction, to: Direction) -> u8 {
    match (from, to) {
        (Direction::Left, Direction::Up) => CORNER_RIGHT_UP,
        (Direction::Right, Direction::Up) => CORNER_LEFT_UP,
        (Direction::Left, Direction::Down) => CORNER_RIGHT_DOWN,
        (Direction::Right, Direction::Down) => CORNER_LEFT_DOWN,
        (Direction::Up, Direction::Left) => CORNER_LEFT_DOWN,
        (Direction::Down, Direction::Left) => CORNER_LEFT_UP,
        (Direction::Up, Direction::Right) => CORNER_RIGHT_DOWN,
        (Direction::Down, Direction::Right) => CORNER_RIGHT_UP,
        (_, Direction::Up) | (_, Direction::Down) => VERTICAL,
        _ => HORIZONTAL,
    }
}

/// Row of the food marker placed from generator output `n`.
pub open spec fn food_row(n: int) -> int {
    n % (PLAYFIELD_ROWS as int) + PLAYFIELD_FIRST_ROW
}

/// Column of the food marker placed from generator output `n`.
pub open spec fn food_col(n: int) -> int {
    n % (PLAYFIELD_COLS as int) + PLAYFIELD_FIRST_COL
}

/// Glyphs for the middle and last cell of three consecutive body cells
/// `(prev, current, next)`, head side first: a corner where the body turns,
/// a straight piece where it runs on, and `None` where the cells do not
/// join up.
pub open spec fn window_glyphs(w: (Pixel, Pixel, Pixel)) -> Option<(u8, u8)> {
    let dr_next = w.2.row - w.1.row;
    let dr_prev = w.1.row - w.0.row;
    let dc_next = w.2.col - w.1.col;
    let dc_prev = w.1.col - w.0.col;
    if dr_next == -1 && dr_prev == 0 && dc_next == 0 && dc_prev == 1 {
        Some((CORNER_LEFT_UP, VERTICAL))
    } else if dr_next == 1 && dr_prev == 0 && dc_next == 0 && dc_prev == 1 {
        Some((CORNER_LEFT_DOWN, VERTICAL))
    } else if dr_next == -1 && dr_prev == 0 && dc_next == 0 && dc_prev == -1 {
        Some((CORNER_RIGHT_UP, VERTICAL))
    } else if dr_next == 1 && dr_prev == 0 && dc_next == 0 && dc_prev == -1 {
        Some((CORNER_RIGHT_DOWN, VERTICAL))
    } else if dr_next == 0 && dr_prev == 1 && dc_next == -1 && dc_prev == 0 {
        Some((CORNER_LEFT_UP, HORIZONTAL))
    } else if dr_next == 0 && dr_prev == 1 && dc_next == 1 && dc_prev == 0 {
        Some((CORNER_RIGHT_UP, HORIZONTAL))
    } else if dr_next == 0 && dr_prev == -1 && dc_next == -1 && dc_prev == 0 {
        Some((CORNER_LEFT_DOWN, HORIZONTAL))
    } else if dr_next == 0 && dr_prev == -1 && dc_next == 1 && dc_prev == 0 {
        Some((CORNER_RIGHT_DOWN, HORIZONTAL))
    } else if dr_next == 0 && dr_prev == 0 && ((dc_next == 1 && dc_prev == 1) || (dc_next == -1
        && dc_prev == -1)) {
        Some((HORIZONTAL, HORIZONTAL))
    } else if dc_next == 0 && dc_prev == 0 && ((dr_next == 1 && dr_prev == 1) || (dr_next == -1
        && dr_prev == -1)) {
        Some((VERTICAL, VERTICAL))
    } else {
        None
    }
}

/// Every window of `ws` joins up.
pub open spec fn contiguous(ws: Seq<(Pixel, Pixel, Pixel)>) -> bool {
    forall|i: int| 0 <= i < ws.len() ==> (#[trigger] window_glyphs(ws[i])).is_some()
}

/// `cells` after the glyphs of each window of `ws` are drawn in order, on the
/// middle and the last cell of the window.
pub open spec fn draw_windows(cells: Seq<ScreenChar>, ws: Seq<(Pixel, Pixel, Pixel)>) -> Seq<
    ScreenChar,
>
    decreases ws.len(),
{
    if ws.len() == 0 {
        cells
    } else {
        let before = draw_windows(cells, ws.drop_last());
        let w = ws.last();
        match window_glyphs(w) {
            Some(g) => put(put(before, w.1, white(g.0)), w.2, white(g.1)),
            None => before,
        }
    }
}

/// The body does not join up, so it cannot be drawn.
#[derive(Debug, Clone, Copy, PartialEq, Eq, Structural)]
pub enum DrawError {
    NotContiguous,
}

/// What a tick did when the game goes on.
#[derive(Debug, Clone, Copy, PartialEq, Eq, Structural)]
pub enum TickOutcome {
    /// The snake moved into an empty cell.
    Moved,
    /// The snake ate the food in front of it and grew by one cell.
    Grew,
}

/// Why a tick ended the game.
#[derive(Debug, Clone, Copy, PartialEq, Eq, Structural)]
pub enum TickError {
    /// The cell in front of the head holds something other than food, or
    /// lies outside the grid.
    Collision,
    /// Food was reached before a score was attached.
    MissingScore,
    /// Food was reached while the body or the score has no room left to grow.
    NoRoom,
}

/// The snake: its body, head first, the direction it moves in, at most one
/// pending turn and the score it feeds.
pub struct Snake {
    body: RingBuffer<Pixel>,
    direction: Direction,
    turn_direction: Option<Direction>,
    score_handler: Option<Score>,
}

impl Snake {
    /// Cells of the body, head first.
    pub closed spec fn spec_body(&self) -> Seq<Pixel> {
        self.body@
    }

    /// Direction of the last move.
    pub closed spec fn spec_direction(&self) -> Direction {
        self.direction
    }

    /// The turn asked for since the last tick.
    pub closed spec fn spec_turn(&self) -> Option<Direction> {
        self.turn_direction
    }

    /// The score, once attached.
    pub closed spec fn spec_score(&self) -> Option<u16> {
        match self.score_handler {
            Some(s) => Some(s.spec_value()),
            None => None,
        }
    }

    /// The body has at least three cells, fits its storage and lies inside
    /// the grid; the head lies one step from the next cell in the direction
    /// of the last move, and every three consecutive cells join up.
    pub closed spec fn wf(&self) -> bool {
        &&& self.body.wf()
        &&& self.body.capacity() == MAX_SNAKE_SIZE
        &&& self.body@.len() >= 3
        &&& forall|i: int|
            0 <= i < self.body@.len() ==> on_grid(
                #[trigger] self.body@[i].row as int,
                self.body@[i].col as int,
            )
        &&& at_step(self.body@[0], self.body@[1], self.direction)
        &&& contiguous(triples(self.body@))
    }

    /// Direction the next tick moves in.
    pub open spec fn next_direction(&self) -> Direction {
        effective_direction(self.spec_direction(), self.spec_turn())
    }

    /// Cell the next tick moves the head into.
    pub open spec fn target(&self) -> (int, int) {
        step(self.spec_body()[0], self.next_direction())
    }

    /// The next tick ends in a collision on `cells`.
    pub open spec fn blocked(&self, cells: Seq<ScreenChar>) -> bool {
        let t = self.target();
        !on_grid(t.0, t.1) || {
            let c = cells[cell_index(t.0, t.1)].ascii_character;
            c != EMPTY && c != FOOD
        }
    }

    /// The next tick finds food on `cells`.
    pub open spec fn finds_food(&self, cells: Seq<ScreenChar>) -> bool {
        let t = self.target();
        !self.blocked(cells) && cells[cell_index(t.0, t.1)].ascii_character == FOOD
    }

    /// The new head of the next tick.
    pub open spec fn new_head(&self) -> Pixel {
        Pixel { row: self.target().0 as usize, col: self.target().1 as usize }
    }

    /// `cells` with the head of the next tick drawn and the old head turned
    /// into body.
    pub open spec fn moved_cells(&self, cells: Seq<ScreenChar>) -> Seq<ScreenChar> {
        put(
            put(cells, self.new_head(), white(head_glyph(self.next_direction()))),
            self.spec_body()[0],
            white(neck_glyph(self.spec_direction(), self.next_direction())),
        )
    }
}

impl Snake {
    /// The snake at the start of a game: three cells in the middle of the
    /// grid, head on the left, moving left, with no pending turn and no score.
    pub fn new() -> (r: Snake)
        ensures
            r.wf(),
            r.spec_body() == seq![
                Pixel { row: 12, col: 40 },
                Pixel { row: 12, col: 41 },
                Pixel { row: 12, col: 42 },
            ],
            r.spec_direction() == Direction::Left,
            r.spec_turn().is_none(),
            r.spec_score().is_none(),
    {
        let mut storage: Vec<Pixel> = Vec::new();
        let mut i: usize = 0;
        while i < MAX_SNAKE_SIZE
            invariant
                i <= MAX_SNAKE_SIZE,
                storage@.len() == i,
            decreases MAX_SNAKE_SIZE - i,
        {
            storage.push(Pixel { row: 0, col: 0 });
            i = i + 1;
        }
        let mut body = RingBuffer::new(storage);
        let row: usize = BUFFER_HEIGHT / 2;
        let col: usize = BUFFER_WIDTH / 2;
        body.append(Pixel { row, col });
        body.append(Pixel { row, col: col + 1 });
        body.append(Pixel { row, col: col + 2 });
        let r = Snake { body, direction: Direction::Left, turn_direction: None, score_handler: None };
        assert(r.spec_body() =~= seq![
            Pixel { row: 12, col: 40 },
            Pixel { row: 12, col: 41 },
            Pixel { row: 12, col: 42 },
        ]);
        r
    }

    /// Attach the score that food feeds.
    pub fn set_score_handler(&mut self, score_handler: Score)
        requires
            old(self).wf(),
        ensures
            final(self).wf(),
            final(self).spec_score() == Some(score_handler.spec_value()),
            final(self).spec_body() == old(self).spec_body(),
            final(self).spec_direction() == old(self).spec_direction(),
            final(self).spec_turn() == old(self).spec_turn(),
    {
        self.score_handler = Some(score_handler);
    }

    /// Ask for a turn at the next tick; a turn already asked for since the
    /// last tick wins, and later ones are dropped.
    pub fn set_turn_direction(&mut self, turn_direction: Direction)
        requires
            old(self).wf(),
        ensures
            final(self).wf(),
            final(self).spec_turn() == match old(self).spec_turn() {
                None => Some(turn_direction),
                Some(d) => Some(d),
            },
            final(self).spec_body() == old(self).spec_body(),
            final(self).spec_direction() == old(self).spec_direction(),
            final(self).spec_score() == old(self).spec_score(),
    {
        match self.turn_direction {
            None => {
                self.turn_direction = Some(turn_direction);
            },
            Some(_) => {},
        }
    }

    /// Direction the next tick moves in.
    fn effective_direction(&self) -> (r: Direction)
        ensures
            r == self.next_direction(),
    {
        match self.turn_direction {
            Some(p) => if p == self.direction.opposite() {
                self.direction
            } else {
                p
            },
            None => self.direction,
        }
    }

    /// The cell one step from `p` in direction `d`, if it lies inside the grid.
    fn step_from(p: Pixel, d: Direction) -> (r: Option<Pixel>)
        requires
            on_grid(p.row as int, p.col as int),
        ensures
            r.is_some() == on_grid(step(p, d).0, step(p, d).1),
            r.is_some() ==> r.unwrap().row == step(p, d).0 && r.unwrap().col == step(p, d).1,
    {
        match d {
            Direction::Left => if p.col == 0 {
                None
            } else {
                Some(Pixel { row: p.row, col: p.col - 1 })
            },
            Direction::Right => if p.col + 1 >= BUFFER_WIDTH {
                None
            } else {
                Some(Pixel { row: p.row, col: p.col + 1 })
            },
            Direction::Up => if p.row == 0 {
                None
            } else {
                Some(Pixel { row: p.row - 1, col: p.col })
            },
            Direction::Down => if p.row + 1 >= BUFFER_HEIGHT {
                None
            } else {
                Some(Pixel { row: p.row + 1, col: p.col })
            },
        }
    }

    /// Draw the head at `p` for a snake moving in direction `d`.
    fn draw_head(screen: &mut Writer, p: Pixel, d: Direction)
        requires
            old(screen).wf(),
            on_grid(p.row as int, p.col as int),
        ensures
            final(screen).wf(),
            final(screen).color() == old(screen).color(),
            final(screen).column() == old(screen).column(),
            final(screen).cells() == put(old(screen).cells(), p, white(head_glyph(d))),
    {
        let code: u8 = match d {
            Direction::Left => HEAD_LEFT,
            Direction::Right => HEAD_RIGHT,
            Direction::Up => HEAD_UP,
            Direction::Down => HEAD_DOWN,
        };
        let c = ScreenChar { ascii_character: code, color_code: ColorCode::new(Color::White, Color::Black) };
        screen.write_character_at(c, p.row, p.col);
    }

    /// Glyph of the cell behind the head after a move from direction `from`
    /// to direction `to`.
    fn neck_code(from: Direction, to: Direction) -> (r: u8)
        ensures
            r == neck_glyph(from, to),
    {
        match (from, to) {
            (Direction::Left, Direction::Up) => CORNER_RIGHT_UP,
            (Direction::Right, Direction::Up) => CORNER_LEFT_UP,
            (Direction::Left, Direction::Down) => CORNER_RIGHT_DOWN,
            (Direction::Right, Direction::Down) => CORNER_LEFT_DOWN,
            (Direction::Up, Direction::Left) => CORNER_LEFT_DOWN,
            (Direction::Down, Direction::Left) => CORNER_LEFT_UP,
            (Direction::Up, Direction::Right) => CORNER_RIGHT_DOWN,
            (Direction::Down, Direction::Right) => CORNER_RIGHT_UP,
            (_, Direction::Up) | (_, Direction::Down) => VERTICAL,
            _ => HORIZONTAL,
        }
    }

    /// Clear the cell of `p`.
    fn erase_body_part(screen: &mut Writer, p: Pixel)
        requires
            old(screen).wf(),
            on_grid(p.row as int, p.col as int),
        ensures
            final(screen).wf(),
            final(screen).color() == old(screen).color(),
            final(screen).column() == old(screen).column(),
            final(screen).cells() == put(old(screen).cells(), p, empty_char()),
    {
        let c = ScreenChar { ascii_character: EMPTY, color_code: ColorCode::new(Color::Black, Color::Black) };
        screen.write_character_at(c, p.row, p.col);
    }

    /// Advance the game by one period.
    ///
    /// The move goes in the pending turn's direction unless that would
    /// reverse the snake, and the pending turn is cleared. The cell in front
    /// of the head decides: an empty cell moves the snake, dropping its tail;
    /// food grows it by one cell, adds a point, redraws the score and places
    /// new food inside the boundary from two generator outputs; anything
    /// else, or the edge of the grid, ends the game. A tick that ends the game
    /// changes nothing.
    pub fn tick(&mut self, screen: &mut Writer, prng: &mut PseudoRandomNumberGenerator) -> (r:
        Result<TickOutcome, TickError>)
        requires
            old(self).wf(),
            old(screen).wf(),
        ensures
            final(self).wf(),
            final(screen).wf(),
            final(screen).color() == old(screen).color(),
            final(screen).column() == old(screen).column(),
            (r == Err::<TickOutcome, TickError>(TickError::Collision)) == old(self).blocked(
                old(screen).cells(),
            ),
            (r == Err::<TickOutcome, TickError>(TickError::MissingScore)) == (old(self).finds_food(
                old(screen).cells(),
            ) && old(self).spec_score().is_none()),
            (r == Err::<TickOutcome, TickError>(TickError::NoRoom)) == (old(self).finds_food(
                old(screen).cells(),
            ) && old(self).spec_score().is_some() && (old(self).spec_score().unwrap() == u16::MAX
                || old(self).spec_body().len() == MAX_SNAKE_SIZE)),
            (r == Ok::<TickOutcome, TickError>(TickOutcome::Moved)) == (!old(self).blocked(
                old(screen).cells(),
            ) && !old(self).finds_food(old(screen).cells())),
            r.is_err() ==> {
                &&& *final(self) == *old(self)
                &&& *final(screen) == *old(screen)
                &&& *final(prng) == *old(prng)
            },
            r.is_ok() ==> {
                &&& final(self).spec_direction() == old(self).next_direction()
                &&& final(self).spec_turn().is_none()
            },
            r == Ok::<TickOutcome, TickError>(TickOutcome::Moved) ==> {
                &&& final(self).spec_body() == seq![old(self).new_head()] + old(
                    self,
                ).spec_body().drop_last()
                &&& final(self).spec_score() == old(self).spec_score()
                &&& *final(prng) == *old(prng)
                &&& final(screen).cells() == put(
                    old(self).moved_cells(old(screen).cells()),
                    old(self).spec_body().last(),
                    empty_char(),
                )
            },
            r == Ok::<TickOutcome, TickError>(TickOutcome::Grew) ==> {
                let n1 = lcg_step(old(prng).state() as int);
                let n2 = lcg_step(n1);
                let points = old(self).spec_score().unwrap() + 1;
                let scored = digits_effect(
                    text_effect(
                        old(screen).cells(),
                        (SCORE_ROW as nat, SCORE_COL as nat),
                        SCORE_LABEL.spec_bytes(),
                        old(screen).color(),
                    ),
                    points as nat,
                    0,
                );
                let food = Pixel { row: food_row(n1) as usize, col: food_col(n2) as usize };
                &&& final(self).spec_body() == seq![old(self).new_head()] + old(self).spec_body()
                &&& final(self).spec_score() == Some(points as u16)
                &&& final(prng).state() == n2
                &&& final(screen).cells() == old(self).moved_cells(put(scored, food, food_char()))
            },
    {
        let direction: Direction = self.effective_direction();
        let head: Pixel = *self.body.peek_first();
        let new_head: Pixel = match Self::step_from(head, direction) {
            None => {
                return Err(TickError::Collision);
            },
            Some(p) => p,
        };
        let drop_last: bool = match self.check_collision(new_head, screen) {
            Err(e) => {
                return Err(e);
            },
            Ok(d) => d,
        };
        if !drop_last {
            self.feed(screen, prng);
        }
        self.advance(screen, new_head, direction, drop_last);
        if drop_last {
            Ok(TickOutcome::Moved)
        } else {
            Ok(TickOutcome::Grew)
        }
    }

    /// Decide what the cell at `new_head`, the target of the next tick, means:
    /// `Ok(true)` for an empty cell, where the tail is dropped, `Ok(false)` for
    /// food that can be eaten, and the error that ends the game otherwise.
    fn check_collision(&self, new_head: Pixel, screen: &Writer) -> (r: Result<bool, TickError>)
        requires
            self.wf(),
            screen.wf(),
            on_grid(self.target().0, self.target().1),
            new_head == self.new_head(),
        ensures
            (r == Err::<bool, TickError>(TickError::Collision)) == self.blocked(screen.cells()),
            (r == Err::<bool, TickError>(TickError::MissingScore)) == (self.finds_food(
                screen.cells(),
            ) && self.spec_score().is_none()),
            (r == Err::<bool, TickError>(TickError::NoRoom)) == (self.finds_food(screen.cells())
                && self.spec_score().is_some() && (self.spec_score().unwrap() == u16::MAX
                || self.spec_body().len() == MAX_SNAKE_SIZE)),
            (r == Ok::<bool, TickError>(true)) == (!self.blocked(screen.cells())
                && !self.finds_food(screen.cells())),
            r == Ok::<bool, TickError>(false) ==> {
                &&& self.finds_food(screen.cells())
                &&& self.spec_score().is_some()
                &&& self.spec_score().unwrap() < u16::MAX
                &&& self.spec_body().len() < MAX_SNAKE_SIZE
            },
    {
        let existing: ScreenChar = screen.read_character_at(new_head.row, new_head.col);
        proof {
            self.body.lemma_len_bound();
        }
        if existing.ascii_character == EMPTY {
            Ok(true)
        } else if existing.ascii_character == FOOD {
            match self.score_handler {
                None => Err(TickError::MissingScore),
                Some(score) => {
                    if score.get_score() == u16::MAX || self.body.is_full() {
                        Err(TickError::NoRoom)
                    } else {
                        Ok(false)
                    }
                },
            }
        } else {
            Err(TickError::Collision)
        }
    }

    /// Eat: add a point, redraw the score and place new food inside the
    /// boundary at a cell drawn from two generator outputs.
    fn feed(&mut self, screen: &mut Writer, prng: &mut PseudoRandomNumberGenerator)
        requires
            old(self).wf(),
            old(screen).wf(),
            old(self).spec_score().is_some(),
            old(self).spec_score().unwrap() < u16::MAX,
        ensures
            final(self).wf(),
            final(screen).wf(),
            final(screen).color() == old(screen).color(),
            final(screen).column() == old(screen).column(),
            final(self).spec_body() == old(self).spec_body(),
            final(self).spec_direction() == old(self).spec_direction(),
            final(self).spec_turn() == old(self).spec_turn(),
            final(self).spec_score() == Some((old(self).spec_score().unwrap() + 1) as u16),
            ({
                let n1 = lcg_step(old(prng).state() as int);
                let n2 = lcg_step(n1);
                let scored = digits_effect(
                    text_effect(
                        old(screen).cells(),
                        (SCORE_ROW as nat, SCORE_COL as nat),
                        SCORE_LABEL.spec_bytes(),
                        old(screen).color(),
                    ),
                    (old(self).spec_score().unwrap() + 1) as nat,
                    0,
                );
                let food = Pixel { row: food_row(n1) as usize, col: food_col(n2) as usize };
                &&& final(prng).state() == n2
                &&& final(screen).cells() == put(scored, food, food_char())
            }),
    {
        if let Some(score) = self.score_handler {
            let mut score = score;
            score.increment();
            score.draw(screen);
            self.score_handler = Some(score);
        }
        let n1: u64 = prng.next();
        let n2: u64 = prng.next();
        let food_row: usize = (n1 % PLAYFIELD_ROWS + PLAYFIELD_FIRST_ROW) as usize;
        let food_col: usize = (n2 % PLAYFIELD_COLS + PLAYFIELD_FIRST_COL) as usize;
        let food = ScreenChar { ascii_character: FOOD, color_code: ColorCode::new(Color::Red, Color::Black) };
        screen.write_character_at(food, food_row, food_col);
    }

    /// Put `new_head` in front of the body, facing `direction`, draw the head
    /// and the cell behind it, and when `drop_last` holds drop and clear the tail.
    fn advance(&mut self, screen: &mut Writer, new_head: Pixel, direction: Direction, drop_last: bool)
        requires
            old(self).wf(),
            old(screen).wf(),
            on_grid(new_head.row as int, new_head.col as int),
            at_step(new_head, old(self).spec_body()[0], direction),
            direction != opposite(old(self).spec_direction()),
            drop_last || old(self).spec_body().len() < MAX_SNAKE_SIZE,
        ensures
            final(self).wf(),
            final(screen).wf(),
            final(screen).color() == old(screen).color(),
            final(screen).column() == old(screen).column(),
            final(self).spec_direction() == direction,
            final(self).spec_turn().is_none(),
            final(self).spec_score() == old(self).spec_score(),
            drop_last ==> final(self).spec_body() == seq![new_head] + old(self).spec_body().drop_last(),
            !drop_last ==> final(self).spec_body() == seq![new_head] + old(self).spec_body(),
            ({
                let moved = put(
                    put(old(screen).cells(), new_head, white(head_glyph(direction))),
                    old(self).spec_body()[0],
                    white(neck_glyph(old(self).spec_direction(), direction)),
                );
                &&& drop_last ==> final(screen).cells() == put(moved, old(self).spec_body().last(), empty_char())
                &&& !drop_last ==> final(screen).cells() == moved
            }),
    {
        let head: Pixel = *self.body.peek_first();
        let old_direction: Direction = self.direction;
        self.direction = direction;
        self.turn_direction = None;
        proof {
            self.body.lemma_len_bound();
        }
        let mut tail: Pixel = head;
        if drop_last {
            tail = self.body.pop_last();
        }
        self.body.prepend(new_head);
        Self::draw_head(screen, new_head, direction);
        let neck = ScreenChar {
            ascii_character: Self::neck_code(old_direction, direction),
            color_code: ColorCode::new(Color::White, Color::Black),
        };
        screen.write_character_at(neck, head.row, head.col);
        if drop_last {
            Self::erase_body_part(screen, tail);
        }
        proof {
            lemma_extend_contiguous(old(self).body@, old_direction, direction, new_head);
        }
        assert forall|i: int| 0 <= i < self.body@.len() implies on_grid(
            #[trigger] self.body@[i].row as int,
            self.body@[i].col as int,
        ) by {
            if i > 0 {
                assert(self.body@[i] == old(self).body@[i - 1]);
            }
        }
    }

    /// Glyphs for three consecutive body cells, head side first.
    fn window_codes(prev: Pixel, current: Pixel, next: Pixel) -> (r: Option<(u8, u8)>)
        requires
            on_grid(prev.row as int, prev.col as int),
            on_grid(current.row as int, current.col as int),
            on_grid(next.row as int, next.col as int),
        ensures
            r == window_glyphs((prev, current, next)),
    {
        let dr_next: i64 = next.row as i64 - current.row as i64;
        let dr_prev: i64 = current.row as i64 - prev.row as i64;
        let dc_next: i64 = next.col as i64 - current.col as i64;
        let dc_prev: i64 = current.col as i64 - prev.col as i64;
        if dr_next == -1 && dr_prev == 0 && dc_next == 0 && dc_prev == 1 {
            Some((CORNER_LEFT_UP, VERTICAL))
        } else if dr_next == 1 && dr_prev == 0 && dc_next == 0 && dc_prev == 1 {
            Some((CORNER_LEFT_DOWN, VERTICAL))
        } else if dr_next == -1 && dr_prev == 0 && dc_next == 0 && dc_prev == -1 {
            Some((CORNER_RIGHT_UP, VERTICAL))
        } else if dr_next == 1 && dr_prev == 0 && dc_next == 0 && dc_prev == -1 {
            Some((CORNER_RIGHT_DOWN, VERTICAL))
        } else if dr_next == 0 && dr_prev == 1 && dc_next == -1 && dc_prev == 0 {
            Some((CORNER_LEFT_UP, HORIZONTAL))
        } else if dr_next == 0 && dr_prev == 1 && dc_next == 1 && dc_prev == 0 {
            Some((CORNER_RIGHT_UP, HORIZONTAL))
        } else if dr_next == 0 && dr_prev == -1 && dc_next == -1 && dc_prev == 0 {
            Some((CORNER_LEFT_DOWN, HORIZONTAL))
        } else if dr_next == 0 && dr_prev == -1 && dc_next == 1 && dc_prev == 0 {
            Some((CORNER_RIGHT_DOWN, HORIZONTAL))
        } else if dr_next == 0 && dr_prev == 0 && ((dc_next == 1 && dc_prev == 1) || (dc_next == -1
            && dc_prev == -1)) {
            Some((HORIZONTAL, HORIZONTAL))
        } else if dc_next == 0 && dc_prev == 0 && ((dr_next == 1 && dr_prev == 1) || (dr_next == -1
            && dr_prev == -1)) {
            Some((VERTICAL, VERTICAL))
        } else {
            None
        }
    }

    /// Draw the whole snake, with the first food marker: the head glyph
    /// for its direction, then, for each window of three consecutive cells
    /// from the head on, a corner or straight glyph on its middle and last
    /// cell. It would fail on cells that do not join up, which a well-formed
    /// snake never has.
    pub fn draw(&self, screen: &mut Writer) -> (r: Result<(), DrawError>)
        requires
            self.wf(),
            old(screen).wf(),
        ensures
            final(screen).wf(),
            final(screen).color() == old(screen).color(),
            final(screen).column() == old(screen).column(),
            r.is_ok() == contiguous(triples(self.spec_body())),
            r.is_ok(),
            r.is_ok() ==> final(screen).cells() == draw_windows(
                put(
                    put(
                        old(screen).cells(),
                        Pixel { row: FIRST_FOOD_ROW, col: FIRST_FOOD_COL },
                        food_char(),
                    ),
                    self.spec_body()[0],
                    white(head_glyph(self.spec_direction())),
                ),
                triples(self.spec_body()),
            ),
    {
        let head_pixel: Pixel = *self.body.peek_first();
        let food = ScreenChar { ascii_character: FOOD, color_code: ColorCode::new(Color::Red, Color::Black) };
        screen.write_character_at(food, FIRST_FOOD_ROW, FIRST_FOOD_COL);
        Self::draw_head(screen, head_pixel, self.direction);
        let ghost base = screen.cells();
        let ghost ws = triples(self.spec_body());
        let n: usize = self.body.len();
        let mut iter = self.body.triple_iter();
        let mut k: usize = 0;
        while k + 2 < n
            invariant
                self.wf(),
                n == self.spec_body().len(),
                ws == triples(self.spec_body()),
                iter.wf(),
                iter.items() == self.spec_body(),
                iter.position() == k,
                k <= ws.len(),
                screen.wf(),
                screen.color() == old(screen).color(),
                screen.column() == old(screen).column(),
                screen.cells() == draw_windows(base, ws.take(k as int)),
                contiguous(ws.take(k as int)),
            decreases n - k,
        {
            let w = iter.next();
            if let Some((prev, current, next)) = w {
                proof {
                    assert(ws[k as int] == (prev, current, next));
                    assert(ws.take(k + 1).drop_last() =~= ws.take(k as int));
                    assert(on_grid(self.spec_body()[k as int].row as int, self.spec_body()[k as int].col as int));
                    assert(on_grid(self.spec_body()[k + 1].row as int, self.spec_body()[k + 1].col as int));
                    assert(on_grid(self.spec_body()[k + 2].row as int, self.spec_body()[k + 2].col as int));
                }
                match Self::window_codes(prev, current, next) {
                    None => {
                        assert(!contiguous(ws));
                        return Err(DrawError::NotContiguous);
                    },
                    Some((current_code, next_code)) => {
                        let white_code = ColorCode::new(Color::White, Color::Black);
                        screen.write_character_at(
                            ScreenChar { ascii_character: current_code, color_code: white_code },
                            current.row,
                            current.col,
                        );
                        screen.write_character_at(
                            ScreenChar { ascii_character: next_code, color_code: white_code },
                            next.row,
                            next.col,
                        );
                    },
                }
                proof {
                    assert forall|i: int| 0 <= i < k + 1 implies (#[trigger] window_glyphs(
                        ws.take(k + 1)[i],
                    )).is_some() by {
                        if i < k {
                            assert(ws.take(k + 1)[i] == ws.take(k as int)[i]);
                        }
                    }
                }
            }
            k = k + 1;
        }
        assert(ws.take(k as int) =~= ws);
        Ok(())
    }

    /// Direction of the last move.
    pub fn direction(&self) -> (r: Direction)
        ensures
            r == self.spec_direction(),
    {
        self.direction
    }

    /// The turn asked for since the last tick.
    pub fn pending_turn(&self) -> (r: Option<Direction>)
        ensures
            r == self.spec_turn(),
    {
        self.turn_direction
    }

    /// The score, once attached.
    pub fn score(&self) -> (r: Option<u16>)
        ensures
            r == self.spec_score(),
    {
        match self.score_handler {
            Some(s) => Some(s.get_score()),
            None => None,
        }
    }

    /// Cells of the body, head first.
    pub fn body_pixels(&self) -> (r: Vec<Pixel>)
        requires
            self.wf(),
        ensures
            r@ == self.spec_body(),
    {
        let n: usize = self.body.len();
        let mut out: Vec<Pixel> = Vec::new();
        let mut i: usize = 0;
        while i < n
            invariant
                self.wf(),
                n == self.spec_body().len(),
                i <= n,
                out@ == self.spec_body().take(i as int),
            decreases n - i,
        {
            proof {
                self.body.lemma_len_bound();
            }
            out.push(*self.body.peek_ith(i));
            i = i + 1;
            assert(out@ =~= self.spec_body().take(i as int));
        }
        assert(out@ =~= self.spec_body());
        out
    }
}

/// Food placed from any two generator outputs lands inside the boundary:
/// on a cell of the grid that is not part of the frame.
pub proof fn lemma_food_inside(n1: int, n2: int)
    requires
        0 <= n1,
        0 <= n2,
    ensures
        PLAYFIELD_FIRST_ROW <= food_row(n1) < PLAYFIELD_FIRST_ROW + PLAYFIELD_ROWS,
        PLAYFIELD_FIRST_COL <= food_col(n2) < PLAYFIELD_FIRST_COL + PLAYFIELD_COLS,
        on_grid(food_row(n1), food_col(n2)),
        boundary_glyph(food_row(n1), food_col(n2)).is_none(),
{
}

/// A pending turn reverses the snake never: a turn to the opposite
/// direction is ignored, and any other turn is taken.
pub proof fn lemma_turns(current: Direction, turn: Direction)
    ensures
        effective_direction(current, Some(opposite(current))) == current,
        turn != opposite(current) ==> effective_direction(current, Some(turn)) == turn,
        effective_direction(current, None) == current,
        effective_direction(current, Some(turn)) != opposite(current),
{
}

/// A body that joins up still joins up after a move that does not reverse
/// it, whether or not the tail is dropped.
proof fn lemma_extend_contiguous(body: Seq<Pixel>, last: Direction, d: Direction, new_head: Pixel)
    requires
        body.len() >= 3,
        at_step(body[0], body[1], last),
        at_step(new_head, body[0], d),
        d != opposite(last),
        contiguous(triples(body)),
    ensures
        contiguous(triples(seq![new_head] + body)),
        contiguous(triples(seq![new_head] + body.drop_last())),
{
    let grown = seq![new_head] + body;
    let moved = seq![new_head] + body.drop_last();
    assert(window_glyphs((new_head, body[0], body[1])).is_some()) by {
        match last {
            Direction::Left => {},
            Direction::Right => {},
            Direction::Up => {},
            Direction::Down => {},
        }
    }
    assert forall|i: int| 0 <= i < triples(grown).len() implies (#[trigger] window_glyphs(
        triples(grown)[i],
    )).is_some() by {
        if i > 0 {
            assert(triples(grown)[i] == triples(body)[i - 1]);
        } else {
            assert(triples(grown)[0] == (new_head, body[0], body[1]));
        }
    }
    assert forall|i: int| 0 <= i < triples(moved).len() implies (#[trigger] window_glyphs(
        triples(moved)[i],
    )).is_some() by {
        if i > 0 {
            assert(triples(moved)[i] == triples(body)[i - 1]);
        } else {
            assert(triples(moved)[0] == (new_head, body[0], body[1]));
        }
    }
}

} // verus!
