pub mod api;
pub mod cert;
pub mod cmd;
pub mod config;
pub mod json;
pub mod lookup;
pub mod schedule;
pub mod text;
pub mod time;
