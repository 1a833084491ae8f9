//! Chat messages and finish reasons exchanged with a language model.

use vstd::prelude::*;
use vstd::string::*;

verus! {

/// Who a chat message comes from.
#[derive(Debug, Clone, Copy, PartialEq, Eq, Structural)]
pub enum Role {
    System,
    User,
    Assistant,
}

/// One message of a chat completion request.
#[derive(Debug, Clone)]
pub struct ChatMessage {
    pub role: Role,
    pub content: String,
}

impl ChatMessage {
    pub fn system(content: &str) -> (m: ChatMessage)
        ensures
            m.role == Role::System,
            m.content@ == content@,
    {
        ChatMessage { role: Role::System, content: content.to_owned() }
    }

    pub fn user(content: &str) -> (m: ChatMessage)
        ensures
            m.role == Role::User,
            m.content@ == content@,
    {
        ChatMessage { role: Role::User, content: content.to_owned() }
    }
}

/// Why a model stopped generating, as the provider reports it.
#[derive(Debug, Clone, Copy, PartialEq, Eq, Structural)]
pub enum FinishReason {
    Stop,
    Length,
    ToolUse,
    ContentFilter,
    Unknown,
}

} // verus!
