pub mod embedder;
