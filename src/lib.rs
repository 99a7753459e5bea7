//! A driver model for the PL031 real-time clock: its register block, the
//! operations on the time, match and interrupt registers, and a calendar
//! layer over the 32-bit UNIX timestamp.
pub mod calendar;
pub mod registers;
pub mod rtc;

pub use calendar::UtcTime;
pub use registers::Registers;
pub use rtc::Rtc;
