pub mod key;
pub mod input;
pub mod todo;
pub mod state;
pub mod laws;
pub mod render;
