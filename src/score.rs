use vstd::prelude::*;
use vstd::string::StringSliceAdditionalSpecFns;

use crate::vga_buffer::{
    cell_index, text_cursor, text_effect, text_fits, Color, ColorCode,
    ScreenChar, Writer, BUFFER_HEIGHT, BUFFER_WIDTH,
};

verus! {

/// Row of the grid that shows the score.
pub const SCORE_ROW: usize = 0;

/// Column where the score's label starts: room for the label and five digits
/// before the right edge.
pub const SCORE_COL: usize = 68;

/// Text shown before the score.
pub const SCORE_LABEL: &'static str = "SCORE: ";

/// Number of decimal digits of `value`; zero has none.
pub open spec fn digit_count(value: nat) -> nat
    decreases value,
{
    if value == 0 {
        0
    } else {
        1 + digit_count(value / 10)
    }
}

/// Ten to the power `k`.
pub open spec fn pow10(k: nat) -> nat
    decreases k,
{
    if k == 0 {
        1
    } else {
        10 * pow10((k - 1) as nat)
    }
}

/// The cell that shows decimal digit `digit`.
pub open spec fn digit_cell(digit: nat) -> ScreenChar {
    ScreenChar {
        ascii_character: (48 + digit) as u8,
        color_code: ColorCode::spec_new(Color::White, Color::Black),
    }
}

/// Cells after the digits of `value` are written right to left on the score
/// row, the lowest digit `shift` columns left of the right edge.
pub open spec fn digits_effect(cells: Seq<ScreenChar>, value: nat, shift: nat) -> Seq<ScreenChar>
    decreases value,
{
    if value == 0 {
        cells
    } else {
        digits_effect(
            cells.update(
                cell_index(SCORE_ROW as int, BUFFER_WIDTH - 1 - shift),
                digit_cell(value % 10),
            ),
            value / 10,
            shift + 1,
        )
    }
}

/// The player's score.
#[derive(Debug, Clone, Copy)]
pub struct Score {
    value: u16,
}

impl Score {
    /// The points scored.
    pub closed spec fn spec_value(&self) -> u16 {
        self.value
    }

    /// A score that starts at `initial_score`.
    pub fn new(initial_score: u16) -> (r: Score)
        ensures
            r.spec_value() == initial_score,
    {
        Score { value: initial_score }
    }

    /// Add one point.
    pub fn increment(&mut self)
        requires
            old(self).spec_value() < u16::MAX,
        ensures
            final(self).spec_value() == old(self).spec_value() + 1,
    {
        self.value = self.value + 1;
    }

    /// The points scored.
    pub fn get_score(&self) -> (r: u16)
        ensures
            r == self.spec_value(),
    {
        self.value
    }

    /// Show the label and the score at the top right of the grid: the digits
    /// end at the last column, and a score of zero shows no digit.
    pub fn draw(&self, screen: &mut Writer)
        requires
            old(screen).wf(),
        ensures
            final(screen).wf(),
            final(screen).color() == old(screen).color(),
            final(screen).column() == old(screen).column(),
            final(screen).cells() == digits_effect(
                text_effect(
                    old(screen).cells(),
                    (SCORE_ROW as nat, SCORE_COL as nat),
                    SCORE_LABEL.spec_bytes(),
                    old(screen).color(),
                ),
                self.spec_value() as nat,
                0,
            ),
    {
        proof {
            lemma_label_fits();
        }
        screen.write_string_at(SCORE_LABEL, SCORE_ROW, SCORE_COL);
        let ghost labelled = screen.cells();
        let mut value: u16 = self.value;
        let mut i: usize = 0;
        proof {
            reveal_with_fuel(pow10, 6);
            lemma_digit_count_bound(value as nat, 5);
        }
        while value > 0
            invariant
                screen.wf(),
                screen.color() == old(screen).color(),
                screen.column() == old(screen).column(),
                i + digit_count(value as nat) <= 5,
                digits_effect(screen.cells(), value as nat, i as nat) == digits_effect(
                    labelled,
                    self.spec_value() as nat,
                    0,
                ),
            decreases value,
        {
            let digit: u8 = (value % 10) as u8 + 48;
            let character = ScreenChar {
                ascii_character: digit,
                color_code: ColorCode::new(Color::White, Color::Black),
            };
            screen.write_character_at(character, SCORE_ROW, BUFFER_WIDTH - i - 1);
            i = i + 1;
            value = value / 10;
        }
    }
}

/// A number below ten to the `k` has at most `k` digits.
proof fn lemma_digit_count_bound(value: nat, k: nat)
    requires
        value < pow10(k),
    ensures
        digit_count(value) <= k,
    decreases k,
{
    if value > 0 {
        let p = pow10((k - 1) as nat);
        assert(value / 10 < p) by (nonlinear_arith)
            requires value < 10 * p;
        lemma_digit_count_bound(value / 10, (k - 1) as nat);
    }
}

/// A line without newline that ends before the right edge of a row inside
/// the grid fits, and leaves the cursor just after it.
proof fn lemma_line_fits(start: (nat, nat), bytes: Seq<u8>)
    requires
        start.0 < BUFFER_HEIGHT,
        start.1 + bytes.len() <= BUFFER_WIDTH,
        forall|i: int| 0 <= i < bytes.len() ==> bytes[i] != 10,
    ensures
        text_fits(start, bytes),
        text_cursor(start, bytes) == (start.0, start.1 + bytes.len()),
    decreases bytes.len(),
{
    if bytes.len() > 0 {
        let rest = bytes.drop_last();
        assert forall|i: int| 0 <= i < rest.len() implies rest[i] != 10 by {
            assert(rest[i] == bytes[i]);
        }
        lemma_line_fits(start, rest);
        assert(bytes.last() == bytes[bytes.len() - 1]);
    }
}

/// The label lies inside the grid.
proof fn lemma_label_fits()
    ensures
        text_fits((SCORE_ROW as nat, SCORE_COL as nat), SCORE_LABEL.spec_bytes()),
{
    reveal_strlit("SCORE: ");
    let chars = SCORE_LABEL@;
    assert(chars.len() == 7);
    assert(vstd::utf8::is_ascii_chars(chars));
    vstd::string::is_ascii_spec_bytes(SCORE_LABEL);
    let b = SCORE_LABEL.spec_bytes();
    assert forall|i: int| 0 <= i < b.len() implies b[i] != 10 by {
        assert(b[i] == chars[i] as u8);
    }
    lemma_line_fits((SCORE_ROW as nat, SCORE_COL as nat), b);
}

} // verus!
