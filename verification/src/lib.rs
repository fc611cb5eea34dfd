//! Verified core of niri-zones: rule selection, config validation, snap
//! bookkeeping, the decision logic of the snap and restore transactions and of
//! the Niri adapter's sequences, the zone chooser and the overlay's drawing.

pub mod text;
pub mod pattern;
pub mod geometry;
pub mod layout;
pub mod backend;
pub mod state;
pub mod engine;
pub mod chooser;
pub mod runtime;
pub mod config;
pub mod rules;
pub mod draw;
pub mod niri;
pub mod settle;
pub mod adapter;
