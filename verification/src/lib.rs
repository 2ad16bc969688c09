pub mod app;
pub mod app_context;
pub mod chat;
pub mod cli;
pub mod commands;
pub mod effect;
pub mod input;
pub mod key;
pub mod layout;
pub mod peer;
pub mod peer_map;
pub mod root;
pub mod text;
pub mod theme;
pub mod widgets;
pub mod width;
