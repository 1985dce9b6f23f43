//! Discovery and interception logic for raising the build limits of a game
//! binary: packing of range values, alignment of bounds, scanning of code
//! regions for the constructor that carries them, and the rewriting of its
//! parameters.

pub mod bytes;
pub mod codec;
pub mod config;
pub mod discovery;
pub mod engine;
pub mod fixed_width;
pub mod hook;
pub mod logger;
pub mod pe;
pub mod platform;
pub mod region;
pub mod resolver;
pub mod scanner;
pub mod variable_width;
