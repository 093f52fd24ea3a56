use snake_os::keyboard::{handle_key, handle_scancode, key_direction, Key, KeyDecoder};
use snake_os::snake::{Direction, Snake};

#[test]
fn arrow_keys_map_to_directions() {
    assert_eq!(key_direction(Key::ArrowUp), Some(Direction::Up));
    assert_eq!(key_direction(Key::ArrowDown), Some(Direction::Down));
    assert_eq!(key_direction(Key::ArrowLeft), Some(Direction::Left));
    assert_eq!(key_direction(Key::ArrowRight), Some(Direction::Right));
    assert_eq!(key_direction(Key::Other), None);
}

#[test]
fn handle_key_records_first_turn_only() {
    let mut snake = Snake::new();
    handle_key(&mut snake, Key::Other);
    assert_eq!(snake.pending_turn(), None);
    handle_key(&mut snake, Key::ArrowDown);
    handle_key(&mut snake, Key::ArrowUp);
    assert_eq!(snake.pending_turn(), Some(Direction::Down));
}

#[test]
fn scancodes_of_arrow_up_ask_for_a_turn_up() {
    let mut decoder = KeyDecoder::new();
    let mut snake = Snake::new();
    handle_scancode(&mut decoder, &mut snake, 0xE0);
    assert_eq!(snake.pending_turn(), None);
    handle_scancode(&mut decoder, &mut snake, 0x48);
    assert_eq!(snake.pending_turn(), Some(Direction::Up));
}

#[test]
fn scancodes_of_a_letter_ask_for_nothing() {
    let mut decoder = KeyDecoder::new();
    let mut snake = Snake::new();
    handle_scancode(&mut decoder, &mut snake, 0x1E);
    handle_scancode(&mut decoder, &mut snake, 0x9E);
    assert_eq!(snake.pending_turn(), None);
}

#[test]
fn scancodes_of_arrow_left_after_release() {
    let mut decoder = KeyDecoder::new();
    let mut snake = Snake::new();
    handle_scancode(&mut decoder, &mut snake, 0xE0);
    handle_scancode(&mut decoder, &mut snake, 0x4B);
    assert_eq!(snake.pending_turn(), Some(Direction::Left));
}
