pub mod input;
pub mod renderer;
pub mod segment;
