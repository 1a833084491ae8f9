//! The agent side: the events an agent run emits.

pub mod events;
