//! Terminal games over a direct peer-to-peer connection: the rules of the
//! conversation between the two sides, and what a key, a click or a line
//! from the peer means.

pub mod cli;
pub mod games;
pub mod keys;
pub mod lobby;
pub mod net;
pub mod session;
pub mod text;
pub mod ui;
