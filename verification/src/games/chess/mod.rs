//! Chess: what the two sides say to each other ([`protocol`]), how a game
//! ends and plays out ([`app`]), what keys and messages do to a game in
//! progress ([`controls`]), and where the board sits on the screen ([`ui`]).

pub mod app;
pub mod controls;
pub mod material;
pub mod panels;
pub mod pieces;
pub mod protocol;
pub mod ui;
pub mod verdict;

pub use protocol::game;
