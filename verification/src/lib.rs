//! Access-control alarm panel core: keypad matrix decoding, a bounded code
//! buffer, the arm/disarm authentication state machine, intrusion alert
//! evaluation and display text formatting. Hardware access (pins, delays,
//! the display transport) is left to the surrounding application; every
//! function here is a pure decision over plain values, verified with Verus.

pub mod buffer;
pub mod keypad;
pub mod machine;
pub mod monitor;
pub mod presenter;
pub mod symbol;
