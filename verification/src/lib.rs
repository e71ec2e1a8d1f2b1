//! Core state-detection logic for a PAC-MAN WORLD Re-PAC auto splitter.
//!
//! The crate tracks a handful of values polled from the game's memory each
//! tick (a loading flag, a level identifier, a boss quick-time-event flag),
//! records their tick-to-tick transitions in watchers, and derives timer
//! decisions (start, split, reset, loading state) from those transitions.
//! Reading the game's memory and driving the external timer are left to the
//! surrounding program; this crate works on the plain values it is handed.

pub mod settings;
pub mod splitter;
pub mod watcher;
