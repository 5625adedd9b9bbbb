pub mod embedder;
pub mod llm_chat;
pub mod vector_storage;
