pub mod args;
pub mod commands;
pub mod controller;
pub mod display;
pub mod handshake;
pub mod listener;
pub mod names;
pub mod select;
pub mod session;
pub mod state;
pub mod text;
pub mod text_map;
pub mod watcher;
pub mod waybar;
pub mod wrapper;
