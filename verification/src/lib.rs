//! Request-processing core of an HTTP server: the wire protocol layer, the
//! route tree and the dispatch pipeline, each with its contract and its proof.

pub mod encoder;
pub mod extractor;
pub mod json;
pub mod list_map;
pub mod middleware;
pub mod parser;
pub mod protocol;
pub mod request;
pub mod response;
pub mod router;
pub mod text;
pub mod util;
