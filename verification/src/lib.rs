pub mod component;
pub mod embed;
pub mod game;
pub mod math;
pub mod render;
pub mod util;
