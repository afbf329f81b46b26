//! Control logic of a dual-player chess clock.
//!
//! The crate tracks remaining time for two players under a configurable
//! time-control rule (sudden death, fixed increment, delay, Bronstein delay),
//! drives a two-line character display through a recorded command stream, and
//! offers an on-device menu to edit the time control before a game starts.
//!
//! All state transitions are pure: event handlers accumulate requested side
//! effects (buzzer tone, page transition, tick enable) in an [`effect::Effects`]
//! value, and the differential renderer emits only the display writes needed to
//! reflect a state change. The embedding program owns the event loop, the
//! buttons, the periodic tick source and the actual display transport.

pub mod app;
pub mod aux;
pub mod effect;
pub mod error;
pub mod game;
pub mod menu;
pub mod output;
pub mod time;
