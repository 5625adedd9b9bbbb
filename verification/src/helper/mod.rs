pub mod builder;
pub mod helper;
pub mod id;
pub mod text;
