pub mod profile_handler;
