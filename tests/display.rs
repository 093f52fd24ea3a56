use snake_os::boundary::Boundary;
use snake_os::score::Score;
use snake_os::vga_buffer::{Color, ColorCode, ScreenChar, Writer, BUFFER_HEIGHT, BUFFER_WIDTH};

fn green() -> ColorCode {
    ColorCode::new(Color::LightGreen, Color::Black)
}

#[test]
fn color_code_packs_background_high() {
    assert_eq!(ColorCode::new(Color::White, Color::Black).value(), 0x0f);
    assert_eq!(ColorCode::new(Color::Red, Color::Black).value(), 0x04);
    assert_eq!(ColorCode::new(Color::LightGreen, Color::Blue).value(), 0x1a);
    assert_eq!(Color::Yellow.index(), 14);
}

#[test]
fn cells_compare_by_code_point_only() {
    let a = ScreenChar { ascii_character: b'x', color_code: ColorCode::new(Color::Red, Color::Black) };
    let b = ScreenChar { ascii_character: b'x', color_code: ColorCode::new(Color::Blue, Color::White) };
    let c = ScreenChar { ascii_character: b'y', color_code: ColorCode::new(Color::Red, Color::Black) };
    assert!(a == b);
    assert!(a != c);
}

#[test]
fn new_writer_is_blank() {
    let w = Writer::new(green());
    for r in 0..BUFFER_HEIGHT {
        for c in 0..BUFFER_WIDTH {
            let ch = w.read_character_at(r, c);
            assert_eq!(ch.ascii_character, b' ');
            assert_eq!(ch.color_code, green());
        }
    }
}

#[test]
fn write_and_read_a_cell() {
    let mut w = Writer::new(green());
    let ch = ScreenChar { ascii_character: 65, color_code: ColorCode::new(Color::Cyan, Color::Black) };
    w.write_character_at(ch, 24, 79);
    let back = w.read_character_at(24, 79);
    assert_eq!(back.ascii_character, 65);
    assert_eq!(back.color_code, ColorCode::new(Color::Cyan, Color::Black));
    assert_eq!(w.read_character_at(24, 78).ascii_character, b' ');
}

#[test]
fn write_string_goes_to_last_row() {
    let mut w = Writer::new(green());
    w.write_string("hi");
    assert_eq!(w.read_character_at(24, 0).ascii_character, b'h');
    assert_eq!(w.read_character_at(24, 1).ascii_character, b'i');
    assert_eq!(w.read_character_at(24, 0).color_code, green());
}

#[test]
fn newline_scrolls_up() {
    let mut w = Writer::new(green());
    w.write_string("ab\ncd");
    assert_eq!(w.read_character_at(23, 0).ascii_character, b'a');
    assert_eq!(w.read_character_at(23, 1).ascii_character, b'b');
    assert_eq!(w.read_character_at(24, 0).ascii_character, b'c');
    assert_eq!(w.read_character_at(24, 1).ascii_character, b'd');
    assert_eq!(w.read_character_at(24, 2).ascii_character, b' ');
}

#[test]
fn unprintable_bytes_show_as_block() {
    let mut w = Writer::new(green());
    w.write_string("a\u{e9}");
    assert_eq!(w.read_character_at(24, 0).ascii_character, b'a');
    assert_eq!(w.read_character_at(24, 1).ascii_character, 0xfe);
    assert_eq!(w.read_character_at(24, 2).ascii_character, 0xfe);
}

#[test]
fn long_line_wraps_onto_fresh_row() {
    let mut w = Writer::new(green());
    let line: String = std::iter::repeat('x').take(BUFFER_WIDTH).collect();
    w.write_string(&line);
    w.write_byte(b'y');
    assert_eq!(w.read_character_at(23, 79).ascii_character, b'x');
    assert_eq!(w.read_character_at(24, 0).ascii_character, b'y');
    assert_eq!(w.read_character_at(24, 1).ascii_character, b' ');
}

#[test]
fn clear_screen_blanks_everything() {
    let mut w = Writer::new(green());
    w.write_string("text");
    let ch = ScreenChar { ascii_character: 1, color_code: green() };
    w.write_character_at(ch, 3, 3);
    w.clear_screen();
    assert_eq!(w.read_character_at(3, 3).ascii_character, b' ');
    assert_eq!(w.read_character_at(24, 0).ascii_character, b' ');
}

#[test]
fn write_string_at_places_text() {
    let mut w = Writer::new(green());
    w.write_string_at("ab\ncd", 5, 78);
    assert_eq!(w.read_character_at(5, 78).ascii_character, b'a');
    assert_eq!(w.read_character_at(5, 79).ascii_character, b'b');
    assert_eq!(w.read_character_at(6, 0).ascii_character, b'c');
    assert_eq!(w.read_character_at(6, 1).ascii_character, b'd');
}

#[test]
fn write_string_at_wraps_full_row() {
    let mut w = Writer::new(green());
    w.write_string_at("abc", 2, 78);
    assert_eq!(w.read_character_at(2, 78).ascii_character, b'a');
    assert_eq!(w.read_character_at(2, 79).ascii_character, b'b');
    assert_eq!(w.read_character_at(3, 0).ascii_character, b'c');
}

#[test]
fn score_counts_up() {
    let mut s = Score::new(5);
    s.increment();
    s.increment();
    assert_eq!(s.get_score(), 7);
}

#[test]
fn score_draws_label_and_digits() {
    let mut w = Writer::new(green());
    Score::new(1234).draw(&mut w);
    let label = b"SCORE: ";
    for (i, b) in label.iter().enumerate() {
        assert_eq!(w.read_character_at(0, 68 + i).ascii_character, *b);
    }
    assert_eq!(w.read_character_at(0, 76).ascii_character, b'1');
    assert_eq!(w.read_character_at(0, 77).ascii_character, b'2');
    assert_eq!(w.read_character_at(0, 78).ascii_character, b'3');
    assert_eq!(w.read_character_at(0, 79).ascii_character, b'4');
    assert_eq!(w.read_character_at(0, 79).color_code, ColorCode::new(Color::White, Color::Black));
}

#[test]
fn score_zero_shows_no_digit() {
    let mut w = Writer::new(green());
    Score::new(0).draw(&mut w);
    assert_eq!(w.read_character_at(0, 68).ascii_character, b'S');
    assert_eq!(w.read_character_at(0, 79).ascii_character, b' ');
}

#[test]
fn boundary_frames_the_playfield() {
    let mut w = Writer::new(green());
    Boundary {}.draw(&mut w);
    assert_eq!(w.read_character_at(1, 0).ascii_character, 218);
    assert_eq!(w.read_character_at(1, 79).ascii_character, 191);
    assert_eq!(w.read_character_at(24, 0).ascii_character, 192);
    assert_eq!(w.read_character_at(24, 79).ascii_character, 217);
    assert_eq!(w.read_character_at(1, 40).ascii_character, 196);
    assert_eq!(w.read_character_at(24, 1).ascii_character, 196);
    assert_eq!(w.read_character_at(2, 0).ascii_character, 179);
    assert_eq!(w.read_character_at(23, 79).ascii_character, 179);
    assert_eq!(w.read_character_at(0, 0).ascii_character, b' ');
    assert_eq!(w.read_character_at(12, 40).ascii_character, b' ');
}
