//! Admission rules for a song request queue.
//!
//! `filter` decides, for one requested map, whether it may join the queue:
//! an ordered chain of rules over the map, the configuration and a snapshot
//! of facts read from the request manager and the local store. `helpers`
//! holds the comparators in which a bound of zero switches a rule off;
//! `session` the smaller decisions of the other commands; `text` the
//! rendering of numbers in messages. Every executable function carries a
//! contract that Verus proves.
pub mod commands;
pub mod config;
pub mod database;
pub mod drm;
pub mod filter;
pub mod helpers;
pub mod session;
pub mod text;
