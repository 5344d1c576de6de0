//! Core of an automated chess player for an online chess server.
//!
//! The library tracks each game's position from its move history, chooses
//! moves (uniformly at random or through an external engine process speaking
//! a line-based text protocol), drives the per-game session and account-level
//! event loops as explicit state machines, and archives finished games into a
//! content-addressed store keyed by a digest of the game text.
//!
//! Chess rules themselves are supplied by an outside rules engine; this crate
//! never reimplements them. All control flow around those calls is verified.

pub mod rules;
pub mod archive;
pub mod dispatcher;
pub mod engine;
pub mod session;
pub mod selector;
pub mod text;
pub mod tracker;

pub use rules::Board;
