//! A response middleware that turns markdown bodies into HTML pages.
//!
//! A response whose content type is `text/markdown` gets the content type
//! `text/html`, and its body is gathered, converted as a whole and sent as one
//! chunk. Every other response passes unchanged.

pub mod body;
pub mod buffer;
pub mod convert;
pub mod middleware;
pub mod response;
pub mod trace;

pub use crate::body::{BodySize, BodyState, MarkdownBody, Phase, Polled, Pulled};
pub use crate::middleware::{
    transform_response, MarkdownTransformerMiddleware, Transformed, Transformer,
};
pub use crate::response::{ConditionalResponse, MarkdownResponse};
