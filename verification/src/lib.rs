pub mod app;
pub mod config;
pub mod cursor;
pub mod event;
pub mod menu;
pub mod ui;
