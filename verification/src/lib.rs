pub mod text;
pub mod number;
pub mod config;
pub mod repl;
pub mod view;
pub mod laws;
