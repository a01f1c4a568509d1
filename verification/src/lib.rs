pub mod cli;
pub mod config;
pub mod engine;
pub mod segments;
pub mod statusline;
pub mod text;
pub mod utils;
