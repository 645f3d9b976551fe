//! Core logic of a local audio-control daemon: mixer snapshots, the command
//! protocol, the single-owner control actor with de-duplicated broadcasts,
//! subscriber bookkeeping, peak-level metering, and the line framing of the
//! socket protocol, together with the small status-widget helpers that ship
//! beside the daemon.

pub mod actor;
pub mod battery;
pub mod command;
pub mod keyboard;
pub mod mixer;
pub mod music;
pub mod peak;
pub mod pomodoro;
pub mod registry;
pub mod snapshot;
pub mod state;
pub mod text;
pub mod timefmt;
pub mod updates;
pub mod volume;
pub mod weather;
pub mod wire;
