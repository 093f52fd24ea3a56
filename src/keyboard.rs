use vstd::prelude::*;

use crate::snake::{Direction, Snake};
use pc_keyboard::layouts::Us104Key;
use pc_keyboard::{DecodedKey, HandleControl, KeyCode, KeyEvent, PS2Keyboard, ScancodeSet1};

verus! {

/// A PS/2 keyboard decoder of pc_keyboard for scancode set 1 and the US
/// layout, with control keys passed through. Verus cannot declare
/// `PS2Keyboard` itself, whose parameters are bound by pc_keyboard's traits,
/// so the decoder is kept whole in this opaque struct.
#[verifier::external_body]
pub struct KeyDecoder {
    inner: PS2Keyboard<Us104Key, ScancodeSet1>,
}

/// A key press or release decoded from scancodes by pc_keyboard.
#[verifier::external_type_specification]
#[verifier::external_body]
pub struct ExKeyEvent(KeyEvent);

/// A key event as pc_keyboard's layout reads it.
#[verifier::external_type_specification]
#[verifier::external_body]
pub struct ExDecodedKey(DecodedKey);

/// A decoding error of pc_keyboard.
#[verifier::external_type_specification]
#[verifier::external_body]
pub struct ExKeyboardError(pc_keyboard::Error);

/// The keys the game reacts to.
#[derive(Debug, Clone, Copy, PartialEq, Eq, Structural)]
pub enum Key {
    ArrowUp,
    ArrowDown,
    ArrowLeft,
    ArrowRight,
    Other,
}

impl KeyDecoder {
    /// Relies on `PS2Keyboard::new`: a decoder in its start state.
    #[verifier::external_body]
    pub fn new() -> KeyDecoder {
        KeyDecoder { inner: PS2Keyboard::new(ScancodeSet1::new(), Us104Key, HandleControl::Ignore) }
    }

    /// Relies on `PS2Keyboard::add_byte`: feeds one scancode byte to the
    /// decoder, which hands back a key event once a whole scancode has arrived.
    #[verifier::external_body]
    fn add_byte(&mut self, byte: u8) -> Result<Option<KeyEvent>, pc_keyboard::Error> {
        self.inner.add_byte(byte)
    }

    /// Relies on `PS2Keyboard::process_keyevent`: turns a key event into a
    /// decoded key, keeping track of the modifier keys.
    #[verifier::external_body]
    fn process_keyevent(&mut self, event: KeyEvent) -> Option<DecodedKey> {
        self.inner.process_keyevent(event)
    }
}

/// Relies on the variants of `DecodedKey` and `KeyCode`: tells the four
/// arrow keys apart from every other key.
#[verifier::external_body]
fn key_of(decoded: DecodedKey) -> Key {
    match decoded {
        DecodedKey::RawKey(KeyCode::ArrowUp) => Key::ArrowUp,
        DecodedKey::RawKey(KeyCode::ArrowDown) => Key::ArrowDown,
        DecodedKey::RawKey(KeyCode::ArrowLeft) => Key::ArrowLeft,
        DecodedKey::RawKey(KeyCode::ArrowRight) => Key::ArrowRight,
        _ => Key::Other,
    }
}

/// The turn an arrow key asks for.
pub open spec fn spec_key_direction(key: Key) -> Option<Direction> {
    match key {
        Key::ArrowUp => Some(Direction::Up),
        Key::ArrowDown => Some(Direction::Down),
        Key::ArrowLeft => Some(Direction::Left),
        Key::ArrowRight => Some(Direction::Right),
        Key::Other => None,
    }
}

/// The turn an arrow key asks for; other keys ask for none.
pub fn key_direction(key: Key) -> (r: Option<Direction>)
    ensures
        r == spec_key_direction(key),
{
    match key {
        Key::ArrowUp => Some(Direction::Up),
        Key::ArrowDown => Some(Direction::Down),
        Key::ArrowLeft => Some(Direction::Left),
        Key::ArrowRight => Some(Direction::Right),
        Key::Other => None,
    }
}

/// Ask `snake` for the turn that `key` stands for, if any.
pub fn handle_key(snake: &mut Snake, key: Key)
    requires
        old(snake).wf(),
    ensures
        final(snake).wf(),
        final(snake).spec_body() == old(snake).spec_body(),
        final(snake).spec_direction() == old(snake).spec_direction(),
        final(snake).spec_score() == old(snake).spec_score(),
        final(snake).spec_turn() == match (old(snake).spec_turn(), spec_key_direction(key)) {
            (None, Some(d)) => Some(d),
            _ => old(snake).spec_turn(),
        },
{
    if let Some(d) = key_direction(key) {
        snake.set_turn_direction(d);
    }
}

/// Feed one scancode byte from the keyboard controller to `keyboard`; when it
/// completes an arrow key, ask `snake` for that turn. Whatever the decoder
/// makes of the byte, only the pending turn can change, and only from none to
/// some turn.
pub fn handle_scancode(
    keyboard: &mut KeyDecoder,
    snake: &mut Snake,
    scancode: u8,
)
    requires
        old(snake).wf(),
    ensures
        final(snake).wf(),
        final(snake).spec_body() == old(snake).spec_body(),
        final(snake).spec_direction() == old(snake).spec_direction(),
        final(snake).spec_score() == old(snake).spec_score(),
        final(snake).spec_turn() == old(snake).spec_turn() || (old(snake).spec_turn().is_none()
            && final(snake).spec_turn().is_some()),
{
    if let Ok(Some(event)) = keyboard.add_byte(scancode) {
        if let Some(decoded) = keyboard.process_keyevent(event) {
            handle_key(snake, key_of(decoded));
        }
    }
}

} // verus!
