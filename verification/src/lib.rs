//! Menus, controls and game modes of the Hectic shoot-'em-up, with their
//! transitions stated and proved.

pub mod menu;
pub mod controls;
pub mod resources;
pub mod systems;
