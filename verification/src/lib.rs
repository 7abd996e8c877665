pub mod buttons;
pub mod commands;
pub mod engine;
pub mod grid;
pub mod item;
pub mod laws;
pub mod store;
