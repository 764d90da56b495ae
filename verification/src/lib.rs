pub mod commands;
pub mod engine;
pub mod errors;
pub mod game;
pub mod parser;
pub mod properties;
pub mod scenario;
pub mod state;
pub mod text;
