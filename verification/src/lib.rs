//! Building and reading a CSV table of Pokémon facts.

pub mod text;
pub mod number;
pub mod lists;
pub mod evolution;
pub mod category;
pub mod enums;
pub mod cli;
pub mod error;
pub mod record;
pub mod names;
pub mod paths;
