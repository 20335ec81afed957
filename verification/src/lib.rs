//! A five-in-a-row (Gomoku) engine: board, placement rules, win detection and
//! turn management, with every operation specified and verified.

pub mod board;
pub mod builder;
pub mod context;
pub mod coord;
pub mod game;
pub mod guard;
pub mod input;
pub mod piece;
pub mod players;
pub mod win;
