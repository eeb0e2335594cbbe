pub mod text;
pub mod order;
pub mod model;
pub mod config;
pub mod theme;
pub mod toml_doc;
pub mod state;
pub mod playlist;
pub mod app;
pub mod app_play;
pub mod app_nav;
pub mod app_search;
pub mod scan;
pub mod app_lists;
pub mod app_settings;
pub mod ipc;
pub mod ui;
pub mod art;
pub mod input;
