//! A snake game for a bare-metal PC: a fixed-capacity ring buffer, a linear
//! congruential generator, an in-memory character grid with text output, the
//! score, the boundary, the tick-driven snake state machine, keyboard input
//! decoding and the trap-vector bookkeeping of the interrupt layer.

pub mod boundary;
pub mod interrupts;
pub mod keyboard;
pub mod prng;
pub mod ring_buffer;
pub mod score;
pub mod snake;
pub mod system_time;
pub mod vga_buffer;
