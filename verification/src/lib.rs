//! Native backend logic of the Mark editor shell: command-line path
//! resolution and the application menu with its event bridge.

pub mod bridge;
pub mod catalog;
pub mod menu;
pub mod path;
pub mod resolver;
pub mod startup;
