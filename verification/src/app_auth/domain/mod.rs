pub mod auth_domain;
