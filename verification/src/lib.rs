//! A revolver-roulette game engine for chat rooms.
//!
//! Every room owns a hidden cylinder of chambers. Players fire in turn; the
//! engine reports whether the chamber was loaded, empty, or whether the gun
//! jammed, and reloads the cylinder once no loaded chamber is left.

pub mod chambers;
pub mod commands;
pub mod config;
pub mod constants;
pub mod coordinator;
pub mod defaults;
pub mod laws;
pub mod membership;
pub mod mute;
pub mod probability;
pub mod random;
pub mod registry;
pub mod roulette;

pub use commands::Commands;
pub use coordinator::TriggerOutcome;
pub use config::{ConfigError, GroupConfig, RouletteConfig};
pub use probability::Probability;
pub use registry::RoomRegistry;
pub use roulette::{FireResult, Revolver, Roulette};
