//! A per-day cache for a daily coding-challenge platform.
//!
//! The crate holds the state of one day's problem, the rules by which that
//! state changes, and the shape of what is sent to and read from the platform.
//! It performs no input or output itself. Every operation that needs the
//! network or the disk is split in two: a function that says what to ask for,
//! and a function that takes what came back. The caller does the asking in
//! between:
//!
//! - `Aoc::get_brief` and `Aoc::get_input` hand out the cached text or the
//!   `Request` to perform; `Aoc::store_brief` and `Aoc::store_input` take the
//!   answer and name the file and the record to write at once.
//! - `Aoc::submit` hands out the request that posts an answer; `Aoc::judge`
//!   reads the page that came back and `Aoc::try_settle` records the outcome.
//! - `Aoc::cookie_source` and `Aoc::load` name the files to read before
//!   `Aoc::init`; `Aoc::write` names the file and the record to write.
//!
//! What an entry stands for in contracts is a `State`; the functions on
//! `State` say how each operation changes it, and the lemmas beside them say
//! what holds of every sequence of operations.
pub mod aoc;
pub mod cli;
pub mod conf;
pub mod error;
pub mod http;
pub mod level;
pub mod pretty;
pub mod report;
pub mod root;
pub mod state;
pub mod store;
pub mod text;

pub use aoc::Aoc;
pub use error::Error;
pub use level::{Level, LevelMap};
pub use root::find_root;
pub use state::State;
pub use store::Record;
