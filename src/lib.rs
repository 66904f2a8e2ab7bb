pub mod display;
pub mod input;
pub mod logic;
mod text;
