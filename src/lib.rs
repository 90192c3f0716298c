pub mod action;
pub mod app;
pub mod details;
pub mod components;
pub mod editor;
pub mod order;
pub mod runtime;
pub mod text;
pub mod tui;
pub mod utils;
pub mod worker;
