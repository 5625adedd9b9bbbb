pub mod profile_usecase;
