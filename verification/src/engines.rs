pub mod bing;
pub mod brave;
pub mod config;
pub mod duckduckgo;
pub mod engine_base;
pub mod request;
