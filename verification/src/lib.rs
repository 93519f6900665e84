//! Verified core of a status-bar daemon: the session snapshot and its refresh
//! rules, the display-topology reconciler, the refresh-task scheduler and the
//! command text sent to the bar.

pub mod config;
pub mod daemon;
pub mod events;
pub mod helpers;
pub mod items;
pub mod name_map;
pub mod sketchybar;
pub mod state;
pub mod text;
