//! Streaming byte payloads for HTTP requests and responses: in-memory
//! chunks, chunk queues, reader and stream adapters, all under an
//! optional byte ceiling.

pub mod chunk;
pub mod size_limit;
pub mod stream;
pub mod more_bytes;
pub mod reader_stream;
pub mod stream_reader;
pub mod stream_http_body;
pub mod hyper_body_stream;
pub mod body;
pub mod contenttype;
