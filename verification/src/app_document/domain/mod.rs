pub mod document_domain;
