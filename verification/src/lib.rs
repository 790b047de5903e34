//! Event-driven orchestration core for a timed multi-part puzzle game.
//!
//! A play session broadcasts four lifecycle events (started, stopped, victory,
//! failure) to a fixed set of independently ticking puzzle parts. Each part
//! decides autonomously whether the player has violated its local constraint;
//! the controller owns the overall countdown. The [`world::World`] type
//! serializes every timer tick and input sample onto one logical timeline and
//! guarantees single-session semantics: at most one terminal event per
//! session, with the terminal event forwarded into exactly one stop broadcast.
//!
//! Durations are carried in milliseconds, charge levels in whole power units,
//! and the shared clock rate in thousandths, so that every transition is exact
//! integer arithmetic.

pub mod charge_balance;
pub mod controller;
pub mod event;
pub mod hold_release;
pub mod laws;
pub mod time_scale;
pub mod timed_button;
pub mod world;
