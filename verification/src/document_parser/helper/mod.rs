pub mod build_context;
