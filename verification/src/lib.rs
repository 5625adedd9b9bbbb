pub mod app_auth;
pub mod app_chat;
pub mod app_document;
pub mod app_profile;
pub mod config;
pub mod document_parser;
pub mod domain;
pub mod error;
pub mod helper;
pub mod middleware;
pub mod request;
pub mod response;
