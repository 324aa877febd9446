//! A session as its service sees it.

use crate::host::Host;
use vstd::prelude::*;

verus! {

/// The state of a session.
pub struct Session<H: Host> {
    pub id: H::SessionId,
    pub created_at: H::Time,
    pub updated_at: H::Time,
    /// The conversation, oldest message first.
    pub messages: Vec<H::Message>,
    pub total_tokens: u64,
    pub total_usage: H::Usage,
    /// The text of the assistant's latest message that has any.
    pub last_assistant_text: Option<String>,
}

/// What a session looked like at one moment.
pub struct SessionSnapshot<H: Host> {
    pub created_at: H::Time,
    pub updated_at: H::Time,
    pub message_count: usize,
    pub total_tokens: u64,
    pub usage: H::Usage,
    pub last_assistant_text: Option<String>,
}

impl<H: Host> SessionSnapshot<H> {
    /// Whether this snapshot shows `session`: it counts the messages and repeats the rest.
    pub open spec fn shows(self, session: Session<H>) -> bool {
        &&& self.created_at == session.created_at
        &&& self.updated_at == session.updated_at
        &&& self.message_count == session.messages@.len()
        &&& self.total_tokens == session.total_tokens
        &&& cloned(session.total_usage, self.usage)
        &&& self.last_assistant_text == session.last_assistant_text
    }
}

} // verus!
