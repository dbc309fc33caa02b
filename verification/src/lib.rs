//! The core of a console emulator: a 6502 processor, the picture and sound
//! processors, the cartridge with its mapper, the controller ports, and the
//! bus between them, advanced in lockstep one instruction at a time.
//!
//! Every function carries a contract over a plain-value view of the
//! machine. The contracts are proved, but for those of the calls into the
//! sample queue (`audio`), the clock (`pacing`) and `String::push` (`text`),
//! which are stated and taken on trust.

pub mod alu;
pub mod apu;
pub mod audio;
pub mod board;
pub mod bus;
pub mod cart;
pub mod channels;
pub mod console;
pub mod cpu;
pub mod error;
pub mod execute;
pub mod joy;
pub mod mapper;
pub mod opcodes;
pub mod pacing;
pub mod ppu;
pub mod render;
pub mod scroll;
pub mod sprites;
pub mod text;
pub mod timing;
pub mod trace;
pub mod units;
pub mod video;
