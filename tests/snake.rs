use snake_os::prng::PseudoRandomNumberGenerator;
use snake_os::score::Score;
use snake_os::snake::{Direction, Pixel, Snake, TickError, TickOutcome};
use snake_os::vga_buffer::{Color, ColorCode, ScreenChar, Writer};

fn blank_screen() -> Writer {
    Writer::new(ColorCode::new(Color::LightGreen, Color::Black))
}

fn px(row: usize, col: usize) -> Pixel {
    Pixel { row, col }
}

fn glyph(code: u8) -> ScreenChar {
    ScreenChar { ascii_character: code, color_code: ColorCode::new(Color::White, Color::Black) }
}

/// Turns the starting snake so that it moves right, with its head at (11, 41).
fn moving_right(screen: &mut Writer, prng: &mut PseudoRandomNumberGenerator) -> Snake {
    let mut snake = Snake::new();
    snake.set_turn_direction(Direction::Up);
    assert_eq!(snake.tick(screen, prng), Ok(TickOutcome::Moved));
    snake.set_turn_direction(Direction::Right);
    assert_eq!(snake.tick(screen, prng), Ok(TickOutcome::Moved));
    assert_eq!(snake.direction(), Direction::Right);
    assert_eq!(snake.body_pixels()[0], px(11, 41));
    snake
}

#[test]
fn starting_snake() {
    let snake = Snake::new();
    assert_eq!(snake.body_pixels(), vec![px(12, 40), px(12, 41), px(12, 42)]);
    assert_eq!(snake.direction(), Direction::Left);
    assert_eq!(snake.pending_turn(), None);
    assert_eq!(snake.score(), None);
}

#[test]
fn tick_without_turn_moves_straight() {
    let mut screen = blank_screen();
    let mut prng = PseudoRandomNumberGenerator::new(7);
    let mut snake = Snake::new();
    assert_eq!(snake.tick(&mut screen, &mut prng), Ok(TickOutcome::Moved));
    assert_eq!(snake.body_pixels(), vec![px(12, 39), px(12, 40), px(12, 41)]);
    assert_eq!(snake.direction(), Direction::Left);
    assert_eq!(screen.read_character_at(12, 39).ascii_character, 17);
    assert_eq!(screen.read_character_at(12, 40).ascii_character, 196);
    assert_eq!(screen.read_character_at(12, 42).ascii_character, 32);
}

#[test]
fn opposite_turn_is_ignored() {
    let mut screen = blank_screen();
    let mut prng = PseudoRandomNumberGenerator::new(7);
    let mut snake = moving_right(&mut screen, &mut prng);
    snake.set_turn_direction(Direction::Left);
    assert_eq!(snake.tick(&mut screen, &mut prng), Ok(TickOutcome::Moved));
    assert_eq!(snake.direction(), Direction::Right);
    assert_eq!(snake.body_pixels()[0], px(11, 42));
    assert_eq!(snake.pending_turn(), None);
}

#[test]
fn lateral_turn_is_taken() {
    let mut screen = blank_screen();
    let mut prng = PseudoRandomNumberGenerator::new(7);
    let mut snake = moving_right(&mut screen, &mut prng);
    let before = snake.body_pixels();
    snake.set_turn_direction(Direction::Up);
    assert_eq!(snake.tick(&mut screen, &mut prng), Ok(TickOutcome::Moved));
    let after = snake.body_pixels();
    assert_eq!(snake.direction(), Direction::Up);
    assert_eq!(after[0].row, before[0].row - 1);
    assert_eq!(after[0].col, before[0].col);
    assert_eq!(after.len(), before.len());
    assert_eq!(screen.read_character_at(10, 41).ascii_character, 30);
    assert_eq!(screen.read_character_at(11, 41).ascii_character, 217);
}

#[test]
fn only_first_turn_between_ticks_counts() {
    let mut snake = Snake::new();
    snake.set_turn_direction(Direction::Up);
    snake.set_turn_direction(Direction::Down);
    assert_eq!(snake.pending_turn(), Some(Direction::Up));
    let mut screen = blank_screen();
    let mut prng = PseudoRandomNumberGenerator::new(7);
    snake.tick(&mut screen, &mut prng).unwrap();
    assert_eq!(snake.direction(), Direction::Up);
    assert_eq!(snake.body_pixels()[0], px(11, 40));
}

#[test]
fn turn_in_current_direction_moves_once() {
    let mut screen = blank_screen();
    let mut prng = PseudoRandomNumberGenerator::new(7);
    let mut snake = Snake::new();
    snake.set_turn_direction(Direction::Left);
    snake.tick(&mut screen, &mut prng).unwrap();
    assert_eq!(snake.body_pixels(), vec![px(12, 39), px(12, 40), px(12, 41)]);
}

#[test]
fn food_grows_the_snake_and_scores() {
    let mut screen = blank_screen();
    let mut prng = PseudoRandomNumberGenerator::new(42);
    let mut snake = Snake::new();
    snake.set_score_handler(Score::new(0));
    let food = ScreenChar { ascii_character: 3, color_code: ColorCode::new(Color::Red, Color::Black) };
    screen.write_character_at(food, 12, 39);
    assert_eq!(snake.tick(&mut screen, &mut prng), Ok(TickOutcome::Grew));
    assert_eq!(snake.body_pixels(), vec![px(12, 39), px(12, 40), px(12, 41), px(12, 42)]);
    assert_eq!(snake.score(), Some(1));
    assert_eq!(screen.read_character_at(0, 79).ascii_character, b'1');
    assert_eq!(screen.read_character_at(0, 68).ascii_character, b'S');

    let mut check = PseudoRandomNumberGenerator::new(42);
    let row = (check.next() % 22 + 2) as usize;
    let col = (check.next() % 78 + 1) as usize;
    assert_eq!(screen.read_character_at(row, col).ascii_character, 3);
    let mut markers = 0;
    for r in 2..24 {
        for c in 1..79 {
            if screen.read_character_at(r, c).ascii_character == 3 {
                markers += 1;
            }
        }
    }
    assert!(markers >= 1);
}

#[test]
fn food_without_score_is_an_error() {
    let mut screen = blank_screen();
    let mut prng = PseudoRandomNumberGenerator::new(42);
    let mut snake = Snake::new();
    screen.write_character_at(glyph(3), 12, 39);
    assert_eq!(snake.tick(&mut screen, &mut prng), Err(TickError::MissingScore));
    assert_eq!(snake.body_pixels(), vec![px(12, 40), px(12, 41), px(12, 42)]);
}

#[test]
fn food_with_full_score_has_no_room() {
    let mut screen = blank_screen();
    let mut prng = PseudoRandomNumberGenerator::new(42);
    let mut snake = Snake::new();
    snake.set_score_handler(Score::new(u16::MAX));
    screen.write_character_at(glyph(3), 12, 39);
    assert_eq!(snake.tick(&mut screen, &mut prng), Err(TickError::NoRoom));
    assert_eq!(snake.score(), Some(u16::MAX));
}

#[test]
fn collision_ends_the_game() {
    let mut screen = blank_screen();
    let mut prng = PseudoRandomNumberGenerator::new(42);
    let mut snake = Snake::new();
    screen.write_character_at(glyph(179), 12, 39);
    assert_eq!(snake.tick(&mut screen, &mut prng), Err(TickError::Collision));
    assert_eq!(snake.body_pixels(), vec![px(12, 40), px(12, 41), px(12, 42)]);
    assert_eq!(screen.read_character_at(12, 39).ascii_character, 179);
}

#[test]
fn leaving_the_grid_is_a_collision() {
    let mut screen = blank_screen();
    let mut prng = PseudoRandomNumberGenerator::new(42);
    let mut snake = Snake::new();
    for _ in 0..40 {
        assert_eq!(snake.tick(&mut screen, &mut prng), Ok(TickOutcome::Moved));
    }
    assert_eq!(snake.body_pixels()[0], px(12, 0));
    assert_eq!(snake.tick(&mut screen, &mut prng), Err(TickError::Collision));
}

#[test]
fn draw_starting_snake() {
    let mut screen = blank_screen();
    let snake = Snake::new();
    assert_eq!(snake.draw(&mut screen), Ok(()));
    assert_eq!(screen.read_character_at(3, 19).ascii_character, 3);
    assert_eq!(screen.read_character_at(12, 40).ascii_character, 17);
    assert_eq!(screen.read_character_at(12, 41).ascii_character, 196);
    assert_eq!(screen.read_character_at(12, 42).ascii_character, 196);
}

#[test]
fn draw_corner_after_turn() {
    let mut screen = blank_screen();
    let mut prng = PseudoRandomNumberGenerator::new(7);
    let mut snake = Snake::new();
    snake.set_turn_direction(Direction::Up);
    snake.tick(&mut screen, &mut prng).unwrap();
    let mut fresh = blank_screen();
    assert_eq!(snake.draw(&mut fresh), Ok(()));
    assert_eq!(fresh.read_character_at(11, 40).ascii_character, 30);
    assert_eq!(fresh.read_character_at(12, 40).ascii_character, 192);
    assert_eq!(fresh.read_character_at(12, 41).ascii_character, 196);
}
