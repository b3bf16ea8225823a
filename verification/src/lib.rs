//! The verified core of a chat bot: a randomized matchmaking engine
//! over a pool of known chat members, with the store and membership
//! oracle it consumes, the renderer and throttled dispatcher that
//! announce its outcome, and the bot's pure text commands.
//!
//! The matchmaking engine is an explicit state machine
//! (`matchmaker`): it reuses the most recent pair while it is still
//! within the freshness window, and otherwise samples two distinct
//! candidates at random, validates both against the membership
//! oracle, evicts candidates that are no longer members, and persists
//! the newly formed pair.  Its contract fixes, for every run, what
//! may come back, what the pool loses, and that a failed run writes
//! no pair.

pub mod arrow;
pub mod autoresponse;
pub mod chain;
pub mod command;
pub mod cw;
pub mod dispatch;
pub mod entities;
pub mod ferris;
pub mod huify;
pub mod matchmaker;
pub mod oracle;
pub mod phrases;
pub mod render;
pub mod replace;
pub mod reverse;
pub mod rng;
pub mod schedule;
pub mod square;
pub mod star;
pub mod store;
pub mod strings;
pub mod text;
pub mod transform;
