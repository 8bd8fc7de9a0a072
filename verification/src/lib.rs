//! Verified core of the DeskHud desktop-pet shell: window docking geometry,
//! menu definitions and actions, HUD editor bookkeeping and small parsers.

pub mod activity;
pub mod bubble;
pub mod catalog;
pub mod color;
pub mod dock;
pub mod font;
pub mod hud;
pub mod layer;
pub mod menu;
pub mod panels;
pub mod pet;
pub mod selection;
pub mod slots;
pub mod text;
pub mod tree;
