pub mod auth_flow;
pub mod helper;
pub mod types;
