pub mod chat_conversation;
pub mod chat_message;
