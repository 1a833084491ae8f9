//! Aria: the registry types, schedulers and executors behind the Aria SDK,
//! with their decision logic stated and proved.

pub mod text;
pub mod json;
pub mod llm;
pub mod aria;
pub mod afw;
pub mod agent;
pub mod sdk;
