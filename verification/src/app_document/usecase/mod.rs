pub mod document_usecase;
pub mod types;
