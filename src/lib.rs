pub mod word;
pub mod game;
pub mod laws;
pub mod session;
pub mod colour;
