//! Decides when a freshly generated Minecraft world should be thrown away
//! because its first rain or thunder cycle starts outside the wanted window.
//!
//! The crate holds the decisions only: how a tick count is rendered, how the
//! weather timers are read out of a decoded `level.dat`, which world folder
//! counts as the active one, and whether a world calls for a reset. Watching
//! the folder, reading files and pressing keys are left to the caller, which
//! drives [`watch::step`] with what it observed.

pub mod snapshot;
pub mod world;
pub mod engine;
pub mod time_codec;
pub mod nbt;
pub mod gzip;
pub mod save;
pub mod watch;
