//! Engine of a shared laser pointer: one participant, the holder, broadcasts a
//! pointer that can be shown, hidden and flashed, and every watcher draws it
//! in an overlay window of its own.
//!
//! The crate holds the decisions of both sides and proves them:
//!
//! - `clock`: which frame of a looping track is on show after a given time;
//! - `shared`: the messages and the tracks that both sides speak of;
//! - `cursor`: the strip of frames that is a cursor picture;
//! - `client`: the holder, from mouse buttons to what the watchers are told;
//! - `ingest`: the watcher's classifier of incoming datagrams;
//! - `session`: one holder's session, and what each update asks of its overlay;
//! - `server`: all sessions of a watcher, by holder;
//! - `config`: what a run is started with.
//!
//! Windows, sockets and the reading of the clock belong to the program around
//! the crate: it hands in what happened and carries out what comes back.
//!
//! Time is counted in microseconds and positions in millionths of an extent,
//! so that every rule is exact integer arithmetic.

pub mod client;
pub mod clock;
pub mod config;
pub mod cursor;
pub mod ingest;
pub mod server;
pub mod session;
pub mod shared;
