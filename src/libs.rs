pub mod constants;
pub mod types;
pub mod instructions;
pub mod trap;
pub mod engine;
pub mod loader;
