pub mod api;
pub mod config;
pub mod http;
pub mod interface;
pub mod models;
pub mod text;
pub mod types;
