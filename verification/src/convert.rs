//! Turning a markdown source into a standalone HTML page.
//!
//! The page is a fixed shell around the HTML that the markdown renders to.
//! Decoding the source bytes and rendering the markdown are done by `std` and
//! by `pulldown-cmark`. What they return is given a name here, together with
//! the little that is plain of it: valid UTF-8 decodes to itself, and an empty
//! text renders to nothing. Everything the library adds around them is stated
//! exactly.

use vstd::prelude::*;
use vstd::string::StringExecFns;
use vstd::utf8::{decode_utf8, encode_utf8, valid_utf8};

use crate::buffer::{chunk_bytes, chunk_from_string};

verus! {

/// What opens every page: doctype, head with the fixed title, start of the body.
pub const SHELL_OPEN: &'static str =
    "<!DOCTYPE html><html><head><title>Markdown Page</title></head><body>";

/// What closes every page.
pub const SHELL_CLOSE: &'static str = "</body></html>";

/// The text that `String::from_utf8_lossy` makes of `bytes`: the decoded
/// text where the bytes are valid UTF-8, and otherwise the text in which each
/// invalid sequence has given way to U+FFFD.
pub uninterp spec fn utf8_lossy(bytes: Seq<u8>) -> Seq<char>;

/// The HTML that `pulldown-cmark` renders `text` to, read as CommonMark with
/// no extension switched on.
pub uninterp spec fn markdown_html(text: Seq<char>) -> Seq<char>;

/// The text that source bytes stand for: what they decode to where they are
/// valid UTF-8, and else what the lossy decoding makes of them.
pub open spec fn text_of(bytes: Seq<u8>) -> Seq<char> {
    if valid_utf8(bytes) {
        decode_utf8(bytes)
    } else {
        utf8_lossy(bytes)
    }
}

/// The HTML that a markdown text becomes: nothing for an empty text, and
/// else what the renderer makes of it.
pub open spec fn html_of(text: Seq<char>) -> Seq<char> {
    if text.len() == 0 {
        Seq::empty()
    } else {
        markdown_html(text)
    }
}

/// The page around `inner`.
pub open spec fn page_of(inner: Seq<char>) -> Seq<char> {
    SHELL_OPEN@ + inner + SHELL_CLOSE@
}

/// The page that a markdown source, given as text, becomes.
pub open spec fn page_of_markdown(text: Seq<char>) -> Seq<char> {
    page_of(html_of(text))
}

/// The bytes of the page that a markdown source, given as raw bytes, becomes.
pub open spec fn page_bytes(source: Seq<u8>) -> Seq<u8> {
    encode_utf8(page_of_markdown(text_of(source)))
}

/// `String::from_utf8_lossy`, with the result made an owned `String`.
/// Believed, not proved: the result is the named text, and for valid UTF-8 it
/// is the plain decoding.
#[verifier::external_body]
pub(crate) fn lossy_text(bytes: &[u8]) -> (text: String)
    ensures
        text@ == utf8_lossy(bytes@),
        valid_utf8(bytes@) ==> text@ == decode_utf8(bytes@),
{
    String::from_utf8_lossy(bytes).into_owned()
}

/// `pulldown_cmark::html::push_html` into a fresh string, fed by
/// `pulldown_cmark::Parser::new_ext` over `text` with `Options::empty()`.
/// Believed, not proved: the result is the named HTML, and an empty text
/// renders to nothing, since the parser then yields no event.
#[verifier::external_body]
pub(crate) fn render_html(text: &str) -> (html: String)
    ensures
        html@ == markdown_html(text@),
        text@.len() == 0 ==> html@.len() == 0,
{
    let mut html = String::new();
    let parser = pulldown_cmark::Parser::new_ext(text, pulldown_cmark::Options::empty());
    pulldown_cmark::html::push_html(&mut html, parser);
    html
}

/// Puts the shell around already rendered HTML.
pub fn wrap_in_shell(inner: &str) -> (page: String)
    ensures
        page@ == page_of(inner@),
{
    let mut page = String::from_str(SHELL_OPEN);
    page.append(inner);
    page.append(SHELL_CLOSE);
    page
}

/// Converts a markdown text into its page.
pub fn convert(text: &str) -> (page: String)
    ensures
        page@ == page_of_markdown(text@),
{
    let html = render_html(text);
    wrap_in_shell(html.as_str())
}

/// Converts a markdown source, given as raw bytes, into its page. No source
/// is refused: there is a page for every sequence of bytes.
pub fn convert_bytes(source: &[u8]) -> (page: String)
    ensures
        page@ == page_of_markdown(text_of(source@)),
{
    let text = lossy_text(source);
    convert(text.as_str())
}

/// Converts a markdown source into the one chunk that carries its page.
pub fn converted_chunk(source: &[u8]) -> (chunk: bytes::Bytes)
    ensures
        chunk_bytes(chunk) == page_bytes(source@),
{
    chunk_from_string(convert_bytes(source))
}

/// The page of an empty document is the bare shell, whether the document
/// comes as text or as bytes.
pub proof fn lemma_empty_document()
    ensures
        page_of_markdown(Seq::empty()) == SHELL_OPEN@ + SHELL_CLOSE@,
        page_bytes(Seq::empty()) == encode_utf8(SHELL_OPEN@ + SHELL_CLOSE@),
{
    let no_bytes = Seq::<u8>::empty();
    let no_text = Seq::<char>::empty();
    assert(valid_utf8(no_bytes));
    assert(decode_utf8(no_bytes) =~= no_text);
}

/// A text that comes as its UTF-8 bytes is converted as the text itself:
/// only bytes that are not valid UTF-8 are ever replaced.
pub proof fn lemma_valid_source(text: Seq<char>)
    ensures
        text_of(encode_utf8(text)) == text,
        page_bytes(encode_utf8(text)) == encode_utf8(page_of_markdown(text)),
{
    vstd::utf8::encode_utf8_valid_utf8(text);
    vstd::utf8::encode_utf8_decode_utf8(text);
}

} // verus!
