//! Integer and string logic of an external game overlay: bone tables,
//! weapon classification, configuration defaults, key and mouse state,
//! process-memory address arithmetic and the small state machines that
//! drive memory reads.

pub mod activation;
pub mod bomb;
pub mod bone;
pub mod cheat_list;
pub mod clock;
pub mod config;
pub mod config_menu;
pub mod crosshair;
pub mod entity;
pub mod game;
pub mod hash;
pub mod input;
pub mod memory;
pub mod messagebox;
pub mod mouse;
pub mod offsets;
pub mod spectator;
pub mod text;
pub mod trigger;
pub mod weapon;
