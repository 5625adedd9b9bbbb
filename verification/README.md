# rag

A retrieval-augmented chat service over uploaded PDF documents: users log in, upload
documents, and ask questions that are answered from the documents' text.

- `src/` is the verified library. It holds the service's decisions as step functions from
  a stage and an event to the next stage and an action (login, registration, uploading,
  chatting, listing conversations and messages), and the computations they rest on: the
  retrieval context and the prompts, paging, object keys, bearer tokens, chunk numbering,
  transcripts and summaries, request and error shapes of the embedding, model and vector
  services. Calls into `argon2`/`password-hash`, `uuid`, `sanitize-filename` and
  `std::path` stand behind small trusted wrappers whose contracts are stated in their doc
  comments.
- `tests/` exercises the library on concrete values.
- `app/` is the service around it: HTTP handlers (axum), PostgreSQL stores (sqlx), the
  object store (S3/MinIO), Kafka, the PDF reader (pdfium) and HTTP calls to the embedding,
  model and vector services. It performs the actions the library asks for and hands back
  their outcomes.
