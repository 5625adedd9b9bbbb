pub mod embedder;
pub mod pdf_parser;
