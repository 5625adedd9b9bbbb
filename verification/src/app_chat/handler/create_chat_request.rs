use vstd::prelude::*;

verus! {

/// The body of a chat request: the conversation to continue (none for a new one) and the
/// message.
#[derive(Debug, Clone, PartialEq, Eq)]
pub struct CreateChatRequest {
    pub conversation_id: Option<u128>,
    pub message: String,
}

} // verus!
