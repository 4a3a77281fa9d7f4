//! The devices of a runnable core: the BIOS, work RAM, the system flags and
//! the display.

pub mod bios;
pub mod lcd;
pub mod system_io;
pub mod wram;
