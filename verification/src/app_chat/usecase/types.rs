use vstd::prelude::*;

use crate::app_chat::domain::chat_conversation::Conversation;
use crate::app_chat::domain::chat_message::Message;

verus! {

/// The answer to a chat message: the conversation it went to and the assistant's answer.
#[derive(Debug, Clone, PartialEq, Eq)]
pub struct CreateChatResponse {
    pub conversation_id: u128,
    pub answer: String,
}

/// One page of a user's conversations and how many the user has in all.
#[derive(Debug, Clone, PartialEq, Eq)]
pub struct GetConversations {
    pub data: Vec<Conversation>,
    pub total_data: i64,
}

/// One page of a conversation's messages, oldest first, and how many it has in all.
#[derive(Debug, Clone, PartialEq, Eq)]
pub struct GetConversationMessages {
    pub data: Vec<Message>,
    pub total_data: i64,
}

} // verus!
