pub mod engine;
pub mod laws;
pub mod msg;
pub mod queue;
pub mod registry;
pub mod state;
pub mod time;
