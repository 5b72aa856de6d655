//! The state machine of a "last buyer wins" pot game: a quadratic key price,
//! a countdown that each purchase extends, and a pot paid to the last buyer
//! once the countdown runs out.
pub mod fomo3d_io;
pub mod game;
pub mod laws;
