//! Turns what a machine reports about itself into the lines of a small
//! terminal banner: one labelled line per fact that could be found, shown
//! beside a decorative face.
//!
//! - [`text`]: trimming, cutting at a delimiter, prefixes, repetition.
//! - [`number`]: reading and writing unsigned numbers in base ten.
//! - [`bytes`]: from the bytes that a command wrote to text.
//! - [`info`]: the facts, and how each is read out of its source.
//! - [`banner`]: the heading, the command line, and the lines that result.
//! - [`faces`]: the face, and the lines laid out beside it.
//!
//! Nothing here reads a file, runs a command or prints: the caller hands in
//! what the system said and prints what comes back.

pub mod banner;
pub mod bytes;
pub mod faces;
pub mod info;
pub mod number;
pub mod text;

pub use banner::{pusher, Fact, Outcome, Request, HELP};
pub use bytes::stdout_str;
pub use info::{Info, Sources};
pub use text::parse_split;
