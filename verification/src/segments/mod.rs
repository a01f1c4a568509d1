pub mod context_window;
pub mod directory;
pub mod effort;
pub mod git;
pub mod model;
pub mod tasks;
pub mod thinking;
pub mod usage;
