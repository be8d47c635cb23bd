//! Persistent data structures, modeled after those of purely functional
//! languages: an inductive cons/nil list whose tails are shared.

pub mod list;
pub mod lemmas;
