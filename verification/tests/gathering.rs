use bytes::Bytes;
use markdown_transformer::body::get_buffer_with_capacity;
use markdown_transformer::convert::{SHELL_CLOSE, SHELL_OPEN};
use markdown_transformer::{BodySize, MarkdownBody, Phase, Polled, Pulled};

fn page(inner: &str) -> Vec<u8> {
    format!("{}{}{}", SHELL_OPEN, inner, SHELL_CLOSE).into_bytes()
}

fn chunk(bytes: &'static [u8]) -> Pulled<u8> {
    Pulled::Chunk(Bytes::from_static(bytes))
}

fn sent(polled: &Polled<u8>) -> Vec<u8> {
    match &polled.item {
        Pulled::Chunk(bytes) => bytes.to_vec(),
        other => panic!("expected a chunk, got {:?}", other),
    }
}

/// Feeds the chunks and then the end; gives every chunk that went out.
fn run(size: BodySize, chunks: &[&'static [u8]]) -> Vec<Vec<u8>> {
    let mut body = MarkdownBody::new((), size);
    let mut out = Vec::new();
    for bytes in chunks {
        let pulled = chunk(bytes);
        assert!(body.fits(&pulled));
        if let Pulled::Chunk(page) = body.on_pulled(pulled).item {
            out.push(page.to_vec());
        }
    }
    if let Pulled::Chunk(page) = body.on_pulled(Pulled::<u8>::End).item {
        out.push(page.to_vec());
    }
    out
}

#[test]
fn new_body_has_gathered_nothing() {
    let body = MarkdownBody::new("wrapped", BodySize::Sized(12));
    assert_eq!(body.phase(), Phase::Accumulating);
    assert_eq!(body.buffered_len(), 0);
    assert_eq!(body.declared_size(), BodySize::Sized(12));
    assert!(!body.is_complete());
}

#[test]
fn wrapped_body_is_kept() {
    let mut body = MarkdownBody::new(vec![1u8, 2], BodySize::Stream);
    body.body_mut().push(3);
    let polled = body.on_pulled(chunk(b"abc"));
    assert!(matches!(polled.item, Pulled::Pending));
    assert_eq!(*body.body_mut(), vec![1u8, 2, 3]);
}

#[test]
fn buffer_starts_empty_with_room() {
    let sized = get_buffer_with_capacity(BodySize::Sized(64));
    assert_eq!(sized.len(), 0);
    assert!(sized.capacity() >= 64);
    let sized64 = get_buffer_with_capacity(BodySize::Sized64(100));
    assert_eq!(sized64.len(), 0);
    assert!(sized64.capacity() >= 100);
    for size in [BodySize::Absent, BodySize::Empty, BodySize::Stream] {
        assert_eq!(get_buffer_with_capacity(size).len(), 0);
    }
}

#[test]
fn buffer_for_an_impossible_size_is_still_made() {
    let huge = get_buffer_with_capacity(BodySize::Sized(usize::MAX));
    assert_eq!(huge.len(), 0);
    let huge64 = get_buffer_with_capacity(BodySize::Sized64(u64::MAX));
    assert_eq!(huge64.len(), 0);
}

#[test]
fn completion_follows_the_declared_size() {
    for size in [BodySize::Absent, BodySize::Empty, BodySize::Sized(0), BodySize::Sized64(0)] {
        assert!(MarkdownBody::new((), size).is_complete());
    }
    assert!(!MarkdownBody::new((), BodySize::Stream).is_complete());
    let mut body = MarkdownBody::new((), BodySize::Sized(5));
    assert!(!body.is_complete());
    body.on_pulled(chunk(b"abcd"));
    assert_eq!(body.buffered_len(), 4);
    assert!(!body.is_complete());
    assert_eq!(body.phase(), Phase::Accumulating);
    body.on_pulled(chunk(b"e"));
    assert_eq!(body.buffered_len(), 5);
    assert!(body.is_complete());
    assert_eq!(body.phase(), Phase::Complete);
}

#[test]
fn sized64_completes_like_sized() {
    let mut body = MarkdownBody::new((), BodySize::Sized64(3));
    let first = body.on_pulled(chunk(b"ab"));
    assert!(matches!(first.item, Pulled::Pending));
    assert!(first.wake);
    let second = body.on_pulled(chunk(b"c"));
    assert_eq!(sent(&second), page("<p>abc</p>\n"));
    assert!(!second.wake);
}

#[test]
fn nothing_goes_out_before_the_body_is_whole() {
    let mut body = MarkdownBody::new((), BodySize::Sized(11));
    for part in [&b"# T"[..], b"itle", b"\n\nx"] {
        let polled = body.on_pulled(Pulled::<u8>::Chunk(Bytes::copy_from_slice(part)));
        assert!(matches!(polled.item, Pulled::Pending));
        assert!(polled.wake);
        assert_eq!(body.phase(), Phase::Accumulating);
    }
    let polled = body.on_pulled(chunk(b"y"));
    assert_eq!(sent(&polled), page("<h1>Title</h1>\n<p>xy</p>\n"));
    assert_eq!(body.phase(), Phase::Complete);
}

#[test]
fn waiting_upstream_is_handed_on_without_wake() {
    let mut body = MarkdownBody::new((), BodySize::Sized(3));
    let polled = body.on_pulled(Pulled::<u8>::Pending);
    assert!(matches!(polled.item, Pulled::Pending));
    assert!(!polled.wake);
    assert_eq!(body.phase(), Phase::Accumulating);
    assert_eq!(body.buffered_len(), 0);
}

#[test]
fn stream_completes_at_its_end() {
    let mut body = MarkdownBody::new((), BodySize::Stream);
    let first = body.on_pulled(chunk(b"# Hi"));
    assert!(matches!(first.item, Pulled::Pending));
    assert!(first.wake);
    let end = body.on_pulled(Pulled::<u8>::End);
    assert_eq!(sent(&end), page("<h1>Hi</h1>\n"));
    assert!(!end.wake);
    assert_eq!(body.phase(), Phase::Complete);
}

#[test]
fn stream_without_chunks_sends_the_bare_shell() {
    assert_eq!(run(BodySize::Stream, &[]), vec![page("")]);
    assert_eq!(run(BodySize::Empty, &[]), vec![page("")]);
    assert_eq!(run(BodySize::Absent, &[]), vec![page("")]);
    assert_eq!(run(BodySize::Sized(0), &[]), vec![page("")]);
}

#[test]
fn body_shorter_than_declared_is_converted_at_its_end() {
    assert_eq!(run(BodySize::Sized(100), &[b"# Hi"]), vec![page("<h1>Hi</h1>\n")]);
}

#[test]
fn one_page_goes_out_and_then_no_more() {
    let mut body = MarkdownBody::new((), BodySize::Sized(4));
    let page_out = body.on_pulled(chunk(b"# Hi"));
    assert_eq!(sent(&page_out), page("<h1>Hi</h1>\n"));
    for pulled in [chunk(b"more"), Pulled::Pending, Pulled::Failed(1), Pulled::End] {
        let polled = body.on_pulled(pulled);
        assert!(matches!(polled.item, Pulled::End));
        assert!(!polled.wake);
        assert_eq!(body.phase(), Phase::Complete);
        assert_eq!(body.buffered_len(), 4);
    }
}

#[test]
fn failure_goes_out_as_it_came() {
    let mut body = MarkdownBody::new((), BodySize::Stream);
    body.on_pulled(chunk(b"part"));
    let polled = body.on_pulled(Pulled::Failed(42u8));
    assert!(matches!(polled.item, Pulled::Failed(42)));
    assert!(!polled.wake);
    assert_eq!(body.phase(), Phase::Errored);
    let after = body.on_pulled(Pulled::<u8>::End);
    assert!(matches!(after.item, Pulled::End));
}

#[test]
fn failure_before_any_chunk_leaves_no_page() {
    let mut body = MarkdownBody::new((), BodySize::Sized(0));
    let polled = body.on_pulled(Pulled::Failed(9u8));
    assert!(matches!(polled.item, Pulled::Failed(9)));
    let after = body.on_pulled(Pulled::<u8>::End);
    assert!(matches!(after.item, Pulled::End));
}

#[test]
fn cutting_the_chunks_elsewhere_changes_nothing() {
    let whole = run(BodySize::Sized(18), &[b"# Title\n\n*a* `b`\n\n"]);
    assert_eq!(whole, vec![page("<h1>Title</h1>\n<p><em>a</em> <code>b</code></p>\n")]);
    let cuts: [&[&'static [u8]]; 4] = [
        &[b"# Title\n", b"\n*a* `b`\n\n"],
        &[b"#", b" ", b"Title\n\n*", b"a* `", b"b`\n\n"],
        &[b"", b"# Title\n\n*a* `b`\n", b"", b"\n"],
        &[b"# Title\n\n*a* `b`\n\n", b""],
    ];
    for chunks in cuts {
        assert_eq!(run(BodySize::Sized(18), chunks), whole);
        assert_eq!(run(BodySize::Sized64(18), chunks), whole);
        assert_eq!(run(BodySize::Stream, chunks), whole);
        assert_eq!(run(BodySize::Sized(1000), chunks), whole);
    }
}

#[test]
fn a_character_cut_in_two_is_put_together_again() {
    let whole = run(BodySize::Stream, &["é".as_bytes()]);
    assert_eq!(whole, vec![page("<p>é</p>\n")]);
    assert_eq!(run(BodySize::Stream, &[b"\xc3", b"\xa9"]), whole);
    assert_eq!(run(BodySize::Sized(2), &[b"\xc3", b"\xa9"]), whole);
}

#[test]
fn invalid_bytes_do_not_stop_the_page() {
    assert_eq!(run(BodySize::Sized(3), &[b"a\xff", b"b"]), vec![page("<p>a\u{fffd}b</p>\n")]);
}

#[test]
fn body_longer_than_declared_is_cut_where_the_size_is_reached() {
    assert_eq!(run(BodySize::Sized(2), &[b"abc", b"def"]), vec![page("<p>abc</p>\n")]);
    assert_eq!(run(BodySize::Sized(2), &[b"a", b"bcd", b"ef"]), vec![page("<p>abcd</p>\n")]);
}

#[test]
fn chunks_fit_while_gathering_and_after() {
    let mut body = MarkdownBody::new((), BodySize::Sized(1));
    assert!(body.fits(&chunk(b"abc")));
    assert!(body.fits(&Pulled::<u8>::End));
    assert!(body.fits(&Pulled::<u8>::Pending));
    assert!(body.fits(&Pulled::Failed(1u8)));
    body.on_pulled(chunk(b"a"));
    assert_eq!(body.phase(), Phase::Complete);
    assert!(body.fits(&chunk(b"abc")));
}
