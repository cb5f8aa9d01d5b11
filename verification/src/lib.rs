//! A plan-and-action engine: an ordered plan of reversible steps, each carrying
//! a lifecycle state, that can be carried out in order and undone in reverse.

pub mod action;
pub mod cancel;
pub mod checkpoint;
pub mod describe;
pub mod error;
pub mod laws;
pub mod plan;
pub mod planner;
pub mod settings;
pub mod version;
