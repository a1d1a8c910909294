//! Coordination core for scheduled group lobbies: the per-lobby state
//! machine, its reminder/expiry timer, the registry of live lobbies, the
//! interaction router and the start-up recovery rules.

pub mod character;
pub mod content;
pub mod recovery;
pub mod registry;
pub mod roster;
pub mod router;
pub mod schedule;
pub mod session;
pub mod target;
pub mod text;
pub mod timer;
