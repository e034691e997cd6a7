//! A Nintendo Entertainment System in verified Rust: the processor, the
//! picture chip, the sound chip, the boards a cartridge may carry, and the
//! debugger that stops the machine and looks inside.

pub mod album;
pub mod apu;
pub mod beam;
pub mod belt;
pub mod bits;
pub mod bus;
pub mod canvas;
pub mod cartridge;
pub mod clock;
pub mod conductor;
pub mod controller;
pub mod cpu;
pub mod debugger;
pub mod disasm;
pub mod dmc;
pub mod envelope;
pub mod font;
pub mod grader;
pub mod heartbeat;
pub mod length;
pub mod machine;
pub mod noise;
pub mod options;
pub mod pace;
pub mod paint;
pub mod pattern;
pub mod picture;
pub mod ppu;
pub mod pulse;
pub mod session;
pub mod signal;
pub mod sleep;
pub mod text;
pub mod timer;
pub mod triangle;
