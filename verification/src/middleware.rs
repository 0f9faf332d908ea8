//! The middleware: which responses are rewritten, and what is done to them.
//!
//! A response is rewritten exactly when its content type header holds the
//! media type of markdown, byte for byte. The header then gets the media type
//! of HTML and the body is wrapped for gathering; no other header is touched,
//! the content length included, since the length of the page is not known
//! yet. Any other response keeps its headers and its body.

use vstd::prelude::*;
use vstd::string::StringSliceAdditionalSpecFns;

use crate::body::{BodySize, BodyState, MarkdownBody, Polled, Pulled};
use crate::response::{ConditionalResponse, MarkdownResponse};

verus! {

/// The media type of the responses that are rewritten.
pub const SOURCE_MEDIA_TYPE: &'static str = "text/markdown";

/// The media type that a rewritten response declares.
pub const TARGET_MEDIA_TYPE: &'static str = "text/html";

/// The bytes of a header value, where the header is there.
pub open spec fn header_bytes(value: Option<&[u8]>) -> Option<Seq<u8>> {
    match value {
        Some(bytes) => Some(bytes@),
        None => None,
    }
}

/// Whether a content type header makes the response one to rewrite: the
/// header is there and its value is the source media type, with nothing
/// before, after or in another case.
pub open spec fn is_source_type(content_type: Option<Seq<u8>>) -> bool {
    content_type == Some(SOURCE_MEDIA_TYPE.spec_bytes())
}

/// What the middleware makes of a response with the given content type,
/// wrapped body and declared size: `content_type` is the header value to set
/// (`None`: the headers stay as they are), `body` the body to send.
pub open spec fn is_transformed<B>(
    content_type: Option<Seq<u8>>,
    body: B,
    size: BodySize,
    out: Transformed<B>,
) -> bool {
    if is_source_type(content_type) {
        &&& out.content_type == Some(TARGET_MEDIA_TYPE)
        &&& out.body matches ConditionalResponse::Active(gathering)
        &&& gathering.wrapped() == body
        &&& gathering@ == BodyState::start(size)
    } else {
        &&& out.content_type is None
        &&& out.body == ConditionalResponse::<MarkdownBody<B>, B>::Inactive(body)
    }
}

/// Whether two slices hold the same bytes.
pub fn same_bytes(left: &[u8], right: &[u8]) -> (same: bool)
    ensures
        same == (left@ == right@),
{
    if left.len() != right.len() {
        return false;
    }
    let mut i: usize = 0;
    while i < left.len()
        invariant
            left.len() == right.len(),
            i <= left.len(),
            left@.take(i as int) == right@.take(i as int),
        decreases left.len() - i,
    {
        if left[i] != right[i] {
            return false;
        }
        i += 1;
    }
    assert(left@.take(i as int) == left@);
    assert(right@.take(i as int) == right@);
    true
}

/// Whether a response with this content type header is rewritten.
pub fn is_markdown(content_type: Option<&[u8]>) -> (active: bool)
    ensures
        active == is_source_type(header_bytes(content_type)),
{
    match content_type {
        Some(value) => same_bytes(value, SOURCE_MEDIA_TYPE.as_bytes()),
        None => false,
    }
}

/// A response after the middleware: the content type to set, if any, and the
/// body to send.
pub struct Transformed<B> {
    pub content_type: Option<&'static str>,
    pub body: MarkdownResponse<B>,
}

/// Builds the middleware around a service.
pub struct Transformer;

/// A service together with the rewriting of its responses.
pub struct MarkdownTransformerMiddleware<S> {
    pub service: S,
}

impl Transformer {
    /// The middleware around `service`.
    pub fn new_transform<S>(&self, service: S) -> (middleware: MarkdownTransformerMiddleware<S>)
        ensures
            middleware.service == service,
    {
        MarkdownTransformerMiddleware { service }
    }
}

/// Decides on one response that a service gave, from its content type
/// header, its body and the size that the body declares.
pub fn transform_response<B>(content_type: Option<&[u8]>, body: B, size: BodySize) -> (out:
    Transformed<B>)
    ensures
        is_transformed(header_bytes(content_type), body, size, out),
{
    if is_markdown(content_type) {
        Transformed {
            content_type: Some(TARGET_MEDIA_TYPE),
            body: ConditionalResponse::Active(MarkdownBody::new(body, size)),
        }
    } else {
        Transformed { content_type: None, body: ConditionalResponse::Inactive(body) }
    }
}

/// A response of any other content type passes through unchanged.
///
/// Its headers are left alone; its body declares the size that the wrapped
/// body declares; and every pull is answered with exactly what the wrapped
/// body gave, chunk, failure, end or "nothing yet", with no wake-up asked for
/// and the body left as it was.
pub proof fn lemma_other_types_pass<B, E>(
    content_type: Option<Seq<u8>>,
    body: B,
    size: BodySize,
    out: Transformed<B>,
    pulled: Pulled<E>,
    after: MarkdownResponse<B>,
    answer: Result<Polled<E>, Pulled<E>>,
)
    requires
        !is_source_type(content_type),
        is_transformed(content_type, body, size, out),
        out.body.polls(pulled, after, answer),
    ensures
        out.content_type is None,
        out.body.wrapped() == body,
        out.body.size_given(size) == size,
        !out.body.is_over(),
        answer == Ok::<Polled<E>, Pulled<E>>(Polled { item: pulled, wake: false }),
        after == out.body,
{
}

/// A markdown response is rewritten.
///
/// Its content type becomes the target media type; its body declares an
/// unknown size, whatever the wrapped body declares; and it starts gathering
/// with nothing gathered, so that all that `trace` proves of a body from its
/// start holds of it.
pub proof fn lemma_markdown_is_rewritten<B>(
    content_type: Option<Seq<u8>>,
    body: B,
    size: BodySize,
    out: Transformed<B>,
)
    requires
        is_source_type(content_type),
        is_transformed(content_type, body, size, out),
    ensures
        out.content_type == Some(TARGET_MEDIA_TYPE),
        out.body.wrapped() == body,
        out.body.size_given(size) == BodySize::Stream,
        out.body matches ConditionalResponse::Active(gathering) && gathering@ == BodyState::start(
            size,
        ),
{
}

} // verus!
