pub mod document_handler;
