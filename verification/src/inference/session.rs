//! Chat session state.

use vstd::prelude::*;

verus! {

#[derive(Debug, Clone, Copy, PartialEq, Eq, Structural)]
pub enum ChatRole {
    System,
    User,
    Assistant,
}

/// The role's name in OpenAI-compatible chat requests.
pub open spec fn spec_role_name(role: ChatRole) -> Seq<char> {
    match role {
        ChatRole::System => "system"@,
        ChatRole::User => "user"@,
        ChatRole::Assistant => "assistant"@,
    }
}

impl ChatRole {
    pub fn api_name(&self) -> (r: &'static str)
        ensures
            r@ == spec_role_name(*self),
    {
        match self {
            ChatRole::System => "system",
            ChatRole::User => "user",
            ChatRole::Assistant => "assistant",
        }
    }
}

#[derive(Debug, Clone)]
pub struct ChatMessage {
    pub role: ChatRole,
    pub content: String,
}

impl ChatMessage {
    pub fn new(role: ChatRole, content: String) -> (r: Self)
        ensures
            r.role == role,
            r.content == content,
    {
        ChatMessage { role, content }
    }
}

#[derive(Debug, Clone)]
pub struct ChatSession {
    pub messages: Vec<ChatMessage>,
    pub system_prompt: Option<String>,
    pub max_context: usize,
}

impl ChatSession {
    pub fn new(max_context: usize) -> (r: Self)
        ensures
            r.messages@.len() == 0,
            r.system_prompt is None,
            r.max_context == max_context,
    {
        ChatSession { messages: Vec::new(), system_prompt: None, max_context }
    }

    pub fn add_message(&mut self, message: ChatMessage)
        ensures
            final(self).messages@ == old(self).messages@.push(message),
            final(self).system_prompt == old(self).system_prompt,
            final(self).max_context == old(self).max_context,
    {
        self.messages.push(message);
    }

    pub fn clear(&mut self)
        ensures
            final(self).messages@.len() == 0,
            final(self).system_prompt == old(self).system_prompt,
            final(self).max_context == old(self).max_context,
    {
        self.messages.clear();
    }
}

} // verus!
