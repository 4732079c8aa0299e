//! A small text-adventure engine: a fixed world of rooms holding items, a
//! player inventory, and a command interpreter that moves items and the player
//! around. All game logic is verified; reading stdin and printing the
//! resulting lines is left to the surrounding program.

pub mod game;
pub mod laws;
pub mod parse;
pub mod render;
pub mod text;
pub mod world;
