pub mod chat_flow;
pub mod types;
pub mod summary;
