//! Request-level data model: roles, messages, and the bodies of the
//! inference endpoint's request and response.

use vstd::prelude::*;

verus! {

/// The speaker of one chat message, serialized as a lowercase token.
#[derive(Clone, Copy, PartialEq, Eq, Structural, Debug)]
pub enum Role {
    System,
    User,
    Assistant,
}

/// The lowercase name under which a role appears in a rendered prompt turn.
pub open spec fn role_label(r: Role) -> Seq<char> {
    match r {
        Role::System => "system"@,
        Role::User => "user"@,
        Role::Assistant => "assistant"@,
    }
}

impl Role {
    /// The lowercase name of the role, exactly as rendered into the prompt.
    pub fn name(&self) -> (r: &'static str)
        ensures
            r@ == role_label(*self),
    {
        match self {
            Role::System => "system",
            Role::User => "user",
            Role::Assistant => "assistant",
        }
    }
}

/// One chat message: who spoke and what was said. Immutable once built.
#[derive(Clone)]
pub struct Message {
    pub role: Role,
    pub content: String,
}

/// Body of an inference request: the ordered conversation history.
pub struct InferRequest {
    pub messages: Vec<Message>,
}

/// Body of a successful inference response.
pub struct InferResponse {
    pub generated_text: String,
}

} // verus!
