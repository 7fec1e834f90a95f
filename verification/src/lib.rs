//! Time-boxed collection of a player's move commands.
//!
//! A turn timer tells its subscribers once that the turn is over; an input
//! loop polls a command collector and forwards what it yields to the game
//! until the timer completes or the input is not understood.

pub mod channel;
pub mod record;
pub mod turn_timer;
pub mod ui;
