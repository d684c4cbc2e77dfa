pub mod bits;
pub mod cpu;
pub mod diagnostics;
pub mod gba;
pub mod host;
pub mod loader;
pub mod bus;
