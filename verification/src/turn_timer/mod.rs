//! The turn timer and the way its completion reaches those who wait for it.

pub mod observer;
pub mod turn_timer;
