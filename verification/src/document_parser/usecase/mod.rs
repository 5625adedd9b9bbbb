pub mod ingest_pdf;
