pub mod qdrant_search;
pub mod qdrant_upsert;
