pub mod analyzer;
pub mod configuration;
pub mod errors;
pub mod generator;
pub mod parser;
