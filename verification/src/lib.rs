//! Verified game logic for a Galaga clone: enemy waves, shields, the
//! player's upgrade economy, snapshots of a session, menus and a software
//! framebuffer.
pub mod shield;
pub mod actions;
pub mod powerups;
pub mod enemies;
pub mod framebuffer;
pub mod sprites;
pub mod font;
pub mod economy;
pub mod session;
pub mod menu;
pub mod screen;
pub mod input;
pub mod credits;
pub mod effects;
