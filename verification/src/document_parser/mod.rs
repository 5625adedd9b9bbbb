pub mod helper;
pub mod infrastructure;
pub mod ports;
pub mod usecase;
