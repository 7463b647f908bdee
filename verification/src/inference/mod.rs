//! Chat sessions and the engine kinds that serve them.

pub mod engine;
pub mod session;

pub use engine::InferenceEngineType;
pub use session::{ChatMessage, ChatRole, ChatSession};
