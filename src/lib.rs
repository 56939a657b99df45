//! Core primitives of a small web fetcher: a strict decomposition of an
//! `http://` URL into host, port, path and searchpart, and the decisions of a
//! single-shot HTTP/1.1 GET exchange.
pub mod error;
pub mod http;
pub mod url;
