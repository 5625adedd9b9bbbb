pub mod domain;
pub mod handler;
pub mod usecase;
