//! The logic of `spotk`, a command-line tool that shows what a metadata
//! service knows about a music track and keeps what it learned in a local
//! store.
//!
//! The library does no input or output. It resolves what the user typed to a
//! track ([`resolver`]), makes the record of a track out of the service's
//! responses ([`normalizer`]), writes a record to a row of the store and reads
//! it back ([`store`]), lays a record out for printing ([`present`]) and
//! decides, step by step, what the program does next ([`pipeline`]).

pub mod color_spinner;
pub mod config;
pub mod normalizer;
pub mod pipeline;
pub mod present;
pub mod resolver;
pub mod store;
pub mod track;
