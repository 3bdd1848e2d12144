//! A small text adventure: a fixed world of rooms and objects, a command
//! parser, and the puzzle rules, each stated as a transition from one game
//! state to the next together with the text it prints.

pub mod tag;
pub mod world;
pub mod state;
pub mod actions;
pub mod parser;
pub mod laws;
