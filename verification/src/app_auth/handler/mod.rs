pub mod map_usecase_error;
pub mod types;
pub mod validate_request;
