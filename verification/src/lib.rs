//! The verified core of a launcher for DayZ on Linux: the configuration
//! document, the stored profiles and last-used values, the command line that
//! starts the game, and the decisions that the launcher's window makes.
pub mod command;
pub mod config;
pub mod launcher;
pub mod steam;
pub mod table;
pub mod text;
pub mod toml_io;
pub mod window;
