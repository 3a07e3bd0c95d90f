//! The model catalogue and the on-disk model store.

pub mod listing;
pub mod manager;
pub mod registry;
