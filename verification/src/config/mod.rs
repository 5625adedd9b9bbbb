pub mod environment;
