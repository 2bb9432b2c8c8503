//! A logger that prints each enabled message on one line, with a simple and
//! readable format: an optional timestamp, the level, the target, an optional
//! thread name and the message.
//!
//! The decision whether a message is printed and the layout of the line are
//! verified; the clock, the terminal colours and the level parser come from
//! the `time`, `colored` and `log` crates.

pub mod color;
pub mod laws;
pub mod level;
pub mod logger;
pub mod record;
pub mod rules;
pub mod timestamp;

pub use level::{Level, LevelFilter};
pub use logger::{LoggerView, SimpleLogger};
pub use record::{Metadata, Record};
pub use timestamp::{TimestampError, Timestamps};
