pub mod embedder_openai;
