pub use event::Events;
pub use state::State;

pub mod event;
pub mod input;
pub mod npc;
pub mod physics;
pub mod sprite;
pub mod state;
pub mod world;
