//! Game rules of a small top-down action RPG: save files, the collision grid,
//! character and animation state machines, menus and the multiplayer lobby text.

pub mod animation;
pub mod character;
pub mod collision;
pub mod combat;
pub mod enemy;
pub mod game_state;
pub mod network;
pub mod save;
pub mod save_ui;
pub mod server;
pub mod text;
