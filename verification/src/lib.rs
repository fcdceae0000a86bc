//! Scheduling rules of a navigation subsystem: when the path finder of a map
//! is rebuilt, when the path of an agent is searched again, and how the
//! outcome of a search is written back to the agent. Beside them stand the
//! players of a game session and the rules of the in-game menu.

pub mod finder_update;
pub mod gui;
pub mod menu;
pub mod path_update;
pub mod player;
pub mod target;
pub mod tasks;
