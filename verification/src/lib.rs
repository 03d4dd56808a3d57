//! Control core for a small two-wheeled robot board.
//!
//! The crate decides *what* has to happen on the board's pins and on its
//! two-wire bus; it never touches the hardware itself. Every operation
//! returns the pin actions or bus frames that carry it out, in order, and the
//! caller performs them. Sampling goes the other way: the caller reads a pin
//! or a clock and hands the value in.
//!
//! Quantities that are fractions on the board (duty cycles, speeds) are
//! integers in parts per million; distances are in thousandths of a
//! centimetre and times in micro- or nanoseconds.

pub mod gpio;
pub mod natural;
pub mod gamma;
pub mod ranging;
pub mod sn3218;
pub mod swiftbot;
