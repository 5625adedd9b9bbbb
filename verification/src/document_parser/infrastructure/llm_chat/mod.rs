pub mod llm_chat;
