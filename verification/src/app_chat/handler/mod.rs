pub mod chat_adapter;
pub mod create_chat_request;
pub mod handler_chat;
