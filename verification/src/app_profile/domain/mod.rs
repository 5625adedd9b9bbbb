pub mod profile_domain;
