//! Countdown to the overflow of a 32-bit signed Unix timestamp
//! (2038-01-19 03:14:07 UTC): how many seconds remain, and how to
//! show them as a human-readable breakdown.

pub mod cli;
pub mod decimal;
pub mod reporter;
pub mod timesource;

pub use cli::parse_mode;
pub use cli::Mode;
pub use reporter::format_duration;
pub use timesource::time_left;
pub use timesource::remaining_seconds;
pub use timesource::DOOM_TS;
