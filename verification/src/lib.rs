//! Replays a textual log of Linux input events into an input device node.
//!
//! The library is organised leaf-first: [`text`] reads raw line bytes,
//! [`time`] holds timestamps and the durations that pace the replay,
//! [`codes`] resolves symbolic event names to numeric codes, [`event`]
//! holds the binary event record and its fixed 24-byte encoding,
//! [`error`] names every way a line can fail, [`parse`] detects the log
//! format and parses lines under it, [`stream`] turns fed lines into a
//! single-pass stream of parse outcomes, and [`engine`] decides, outcome
//! by outcome, what must be written where and after what delay.

pub mod codes;
pub mod engine;
pub mod error;
pub mod event;
pub mod parse;
pub mod stream;
pub mod text;
pub mod time;
