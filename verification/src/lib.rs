//! Core of a wallboard application: four web views tiled 2x2 on a chosen
//! display. This crate holds the decision logic — monitor selection, tile
//! geometry, and the idempotent view-reconciliation plan — with verified
//! contracts. Host windowing calls and file persistence live outside.

pub mod config;
pub mod display;
pub mod layout;
pub mod monitor;
pub mod reconcile;
pub mod session;
pub mod text;
