//! A small role-playing guild engine: a level/experience progression curve,
//! a randomized attribute-bonus distributor, a turn-based combat resolver,
//! and the post-battle progression applier, together with the pure command
//! and text helpers that the surrounding chat bot needs.

pub mod battle;
pub mod bonus;
pub mod commands;
pub mod config;
pub mod monsters;
pub mod progression;
pub mod random;
pub mod text;
pub mod users;
pub mod util;
