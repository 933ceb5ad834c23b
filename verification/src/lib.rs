pub mod config;
pub mod identity;
pub mod text;
