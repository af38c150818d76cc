//! Everything that starting a runner decides: what is pulled, what is
//! created with which settings, and in which order.

pub mod containers;
pub mod health;
pub mod start;
