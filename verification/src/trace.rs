//! What a rewritten body sends over its whole life.
//!
//! `BodyState::step` says what one pull does. Here the pulls of a whole body
//! are taken together, and the properties that make the rewriting safe to put
//! in front of a transport are proved of every sequence of pulls: the page
//! goes out once, whole, and after everything it was made from; a failure of
//! the wrapped body goes out as it is and no page with it; and where the
//! chunks of the wrapped body are cut makes no difference to the page.
//!
//! The pulls spoken of are those that the body takes in. A chunk that does
//! not fit is handed back with the body unchanged, and is no pull of it.

use vstd::prelude::*;

use crate::body::{BodySize, BodyState, Phase, PolledView, PulledView};
use crate::convert::{lemma_empty_document, page_bytes, SHELL_CLOSE, SHELL_OPEN};

verus! {

/// The state that `pulls`, taken in one by one, lead to from `state`.
pub open spec fn state_after<E>(state: BodyState, pulls: Seq<PulledView<E>>) -> BodyState
    decreases pulls.len(),
{
    if pulls.len() == 0 {
        state
    } else {
        state_after(state, pulls.drop_last()).step(pulls.last()).0
    }
}

/// The answers that `pulls`, taken in one by one from `state` on, are given.
pub open spec fn answers<E>(state: BodyState, pulls: Seq<PulledView<E>>) -> Seq<PolledView<E>> {
    Seq::new(pulls.len(), |i: int| state_after(state, pulls.take(i)).step(pulls[i]).1)
}

/// The bytes of the chunks among `pulls`, in the order in which they came.
pub open spec fn gathered<E>(pulls: Seq<PulledView<E>>) -> Seq<u8>
    decreases pulls.len(),
{
    if pulls.len() == 0 {
        Seq::empty()
    } else {
        match pulls.last() {
            PulledView::Chunk(bytes) => gathered(pulls.drop_last()) + bytes,
            _ => gathered(pulls.drop_last()),
        }
    }
}

/// The chunks among `answers`, in the order in which they went out.
pub open spec fn pages<E>(answers: Seq<PolledView<E>>) -> Seq<Seq<u8>>
    decreases answers.len(),
{
    if answers.len() == 0 {
        Seq::empty()
    } else {
        match answers.last().item {
            PulledView::Chunk(bytes) => pages(answers.drop_last()).push(bytes),
            _ => pages(answers.drop_last()),
        }
    }
}

/// The pulls of a wrapped body that gives `chunks` and then ends.
pub open spec fn feed<E>(chunks: Seq<Seq<u8>>) -> Seq<PulledView<E>> {
    Seq::new(
        chunks.len() + 1,
        |i: int|
            if i < chunks.len() {
                PulledView::Chunk(chunks[i])
            } else {
                PulledView::End
            },
    )
}

proof fn lemma_state_take<E>(state: BodyState, pulls: Seq<PulledView<E>>, i: int)
    requires
        0 <= i < pulls.len(),
    ensures
        state_after(state, pulls.take(i + 1)) == state_after(state, pulls.take(i)).step(
            pulls[i],
        ).0,
{
    let upto = pulls.take(i + 1);
    assert(upto.drop_last() =~= pulls.take(i));
}

proof fn lemma_gathered_take<E>(pulls: Seq<PulledView<E>>, i: int)
    requires
        0 <= i < pulls.len(),
    ensures
        gathered(pulls.take(i + 1)) == match pulls[i] {
            PulledView::Chunk(bytes) => gathered(pulls.take(i)) + bytes,
            _ => gathered(pulls.take(i)),
        },
{
    let upto = pulls.take(i + 1);
    assert(upto.drop_last() =~= pulls.take(i));
}

/// Once a body has left the gathering it stays as it is.
proof fn lemma_settled_from<E>(state: BodyState, pulls: Seq<PulledView<E>>, i: int, j: int)
    requires
        0 <= i <= j <= pulls.len(),
        !(state_after(state, pulls.take(i)).phase is Accumulating),
    ensures
        state_after(state, pulls.take(j)) == state_after(state, pulls.take(i)),
    decreases j - i,
{
    if i < j {
        lemma_settled_from(state, pulls, i, j - 1);
        lemma_state_take(state, pulls, j - 1);
    }
}

/// While a body gathers, it holds the bytes of the chunks pulled so far, and
/// all that was pulled so far are chunks and "nothing yet".
proof fn lemma_gathering<E>(size: BodySize, pulls: Seq<PulledView<E>>, i: int)
    requires
        0 <= i <= pulls.len(),
        state_after(BodyState::start(size), pulls.take(i)).phase is Accumulating,
    ensures
        state_after(BodyState::start(size), pulls.take(i)) == (BodyState {
            size,
            buffered: gathered(pulls.take(i)),
            phase: Phase::Accumulating,
        }),
        forall|j: int|
            0 <= j < i ==> #[trigger] state_after(
                BodyState::start(size),
                pulls.take(j),
            ).phase is Accumulating,
    decreases i,
{
    if i > 0 {
        lemma_state_take(BodyState::start(size), pulls, i - 1);
        lemma_gathered_take(pulls, i - 1);
        lemma_gathering(size, pulls, i - 1);
    }
}

/// The answer to a pull that comes after the gathering is "no more".
proof fn lemma_answer_settled<E>(state: BodyState, pulls: Seq<PulledView<E>>, i: int, j: int)
    requires
        0 <= i <= j < pulls.len(),
        !(state_after(state, pulls.take(i)).phase is Accumulating),
    ensures
        answers(state, pulls)[j] == PolledView::<E>::quiet(PulledView::End),
{
    lemma_settled_from(state, pulls, i, j);
}

/// The answer to a pull during the gathering, after which the body still
/// gathers, is "not yet".
proof fn lemma_answer_gathering<E>(size: BodySize, pulls: Seq<PulledView<E>>, j: int)
    requires
        0 <= j < pulls.len(),
        state_after(BodyState::start(size), pulls.take(j + 1)).phase is Accumulating,
    ensures
        answers(BodyState::start(size), pulls)[j].item is Pending,
        pulls[j] is Chunk || pulls[j] is Pending,
{
    let start = BodyState::start(size);
    lemma_state_take(start, pulls, j);
    if !(state_after(start, pulls.take(j)).phase is Accumulating) {
        lemma_settled_from(start, pulls, j, j + 1);
    }
}

/// A rewritten body sends its page once, whole and last.
///
/// If the answer to the pull at `i` is a chunk, then that chunk is the page
/// of all the bytes that the wrapped body had given up to that pull; the
/// pull was the end of the wrapped body, or the chunk that made up the
/// declared size; every answer before was "not yet"; and every answer after
/// is "no more". So no second chunk goes out, and no part of the page before
/// the whole.
pub proof fn lemma_one_page<E>(size: BodySize, pulls: Seq<PulledView<E>>, i: int)
    requires
        0 <= i < pulls.len(),
        answers(BodyState::start(size), pulls)[i].item is Chunk,
    ensures
        answers(BodyState::start(size), pulls)[i] == PolledView::<E>::quiet(
            PulledView::Chunk(page_bytes(gathered(pulls.take(i + 1)))),
        ),
        pulls[i] is End || (pulls[i] is Chunk && size.reached(gathered(pulls.take(i + 1)).len())),
        forall|j: int|
            0 <= j < i ==> (#[trigger] answers(BodyState::start(size), pulls)[j]).item is Pending,
        forall|j: int|
            i < j < pulls.len() ==> #[trigger] answers(BodyState::start(size), pulls)[j]
                == PolledView::<E>::quiet(PulledView::End),
{
    let start = BodyState::start(size);
    let all = answers(start, pulls);
    lemma_gathering(size, pulls, i);
    lemma_gathered_take(pulls, i);
    lemma_state_take(start, pulls, i);
    assert forall|j: int| 0 <= j < i implies (#[trigger] all[j]).item is Pending by {
        lemma_answer_gathering(size, pulls, j);
    }
    assert forall|j: int| i < j < pulls.len() implies #[trigger] all[j] == PolledView::<E>::quiet(
        PulledView::End,
    ) by {
        lemma_answer_settled(start, pulls, i + 1, j);
    }
}

/// A wrapped body that ends without failing gets its page.
///
/// If the pull at `end` is the end of the wrapped body and no pull before
/// it is a failure, some answer up to there is a chunk.
pub proof fn lemma_page_by_end<E>(size: BodySize, pulls: Seq<PulledView<E>>, end: int) -> (i: int)
    requires
        0 <= end < pulls.len(),
        pulls[end] is End,
        forall|j: int| 0 <= j < end ==> !(#[trigger] pulls[j] is Failed),
    ensures
        0 <= i <= end,
        answers(BodyState::start(size), pulls)[i].item is Chunk,
{
    let start = BodyState::start(size);
    if state_after(start, pulls.take(end)).phase is Accumulating {
        end
    } else {
        let i = lemma_first_settled(size, pulls, end);
        lemma_state_take(start, pulls, i);
        i
    }
}

/// Where a body is found past the gathering, some pull before took it there.
proof fn lemma_first_settled<E>(size: BodySize, pulls: Seq<PulledView<E>>, m: int) -> (i: int)
    requires
        0 <= m <= pulls.len(),
        !(state_after(BodyState::start(size), pulls.take(m)).phase is Accumulating),
    ensures
        0 <= i < m,
        state_after(BodyState::start(size), pulls.take(i)).phase is Accumulating,
        !(state_after(BodyState::start(size), pulls.take(i + 1)).phase is Accumulating),
    decreases m,
{
    let start = BodyState::start(size);
    if m == 0 {
        0
    } else if state_after(start, pulls.take(m - 1)).phase is Accumulating {
        m - 1
    } else {
        lemma_first_settled(size, pulls, m - 1)
    }
}

/// A failure of the wrapped body goes out as it came, and no page with it.
///
/// If the answer to the pull at `k` is a failure, it is the failure that
/// the wrapped body gave at that pull, and no answer, before or after, is a
/// chunk: what had been gathered is never converted.
pub proof fn lemma_failure_leaves_no_page<E>(size: BodySize, pulls: Seq<PulledView<E>>, k: int)
    requires
        0 <= k < pulls.len(),
        answers(BodyState::start(size), pulls)[k].item is Failed,
    ensures
        pulls[k] is Failed,
        answers(BodyState::start(size), pulls)[k] == PolledView::<E>::quiet(pulls[k]),
        forall|j: int|
            0 <= j < pulls.len() ==> !((#[trigger] answers(BodyState::start(size), pulls)[j]).item
                is Chunk),
{
    let start = BodyState::start(size);
    let all = answers(start, pulls);
    lemma_state_take(start, pulls, k);
    assert forall|j: int| 0 <= j < pulls.len() implies !((#[trigger] all[j]).item is Chunk) by {
        if all[j].item is Chunk {
            lemma_one_page(size, pulls, j);
        }
    }
}

/// A failure of the wrapped body during the gathering is answered with that
/// failure.
///
/// If the pull at `k` is a failure and every answer before was "not yet",
/// the answer at `k` is the failure.
pub proof fn lemma_failure_surfaces<E>(size: BodySize, pulls: Seq<PulledView<E>>, k: int)
    requires
        0 <= k < pulls.len(),
        pulls[k] is Failed,
        forall|j: int|
            0 <= j < k ==> (#[trigger] answers(BodyState::start(size), pulls)[j]).item is Pending,
    ensures
        answers(BodyState::start(size), pulls)[k] == PolledView::<E>::quiet(pulls[k]),
{
    let start = BodyState::start(size);
    if !(state_after(start, pulls.take(k)).phase is Accumulating) {
        let i = lemma_first_settled(size, pulls, k);
        lemma_state_take(start, pulls, i);
        assert(answers(start, pulls)[i].item is Pending);
    }
}

proof fn lemma_pages_none<E>(answers: Seq<PolledView<E>>)
    requires
        forall|j: int| 0 <= j < answers.len() ==> !((#[trigger] answers[j]).item is Chunk),
    ensures
        pages(answers) == Seq::<Seq<u8>>::empty(),
    decreases answers.len(),
{
    if answers.len() > 0 {
        lemma_pages_none(answers.drop_last());
    }
}

proof fn lemma_pages_single<E>(answers: Seq<PolledView<E>>, i: int, page: Seq<u8>)
    requires
        0 <= i < answers.len(),
        answers[i].item == PulledView::<E>::Chunk(page),
        forall|j: int|
            0 <= j < answers.len() && j != i ==> !((#[trigger] answers[j]).item is Chunk),
    ensures
        pages(answers) == seq![page],
    decreases answers.len(),
{
    if i == answers.len() - 1 {
        lemma_pages_none(answers.drop_last());
    } else {
        lemma_pages_single(answers.drop_last(), i, page);
    }
}

/// No body sends more than one chunk.
pub proof fn lemma_at_most_one_page<E>(size: BodySize, pulls: Seq<PulledView<E>>)
    ensures
        pages(answers(BodyState::start(size), pulls)).len() <= 1,
{
    let all = answers(BodyState::start(size), pulls);
    if exists|i: int| 0 <= i < all.len() && (#[trigger] all[i]).item is Chunk {
        let i = choose|i: int| 0 <= i < all.len() && (#[trigger] all[i]).item is Chunk;
        lemma_one_page(size, pulls, i);
        lemma_pages_single(all, i, all[i].item->Chunk_0);
    } else {
        lemma_pages_none(all);
    }
}

/// A wrapped body that ends without failing sends exactly one chunk.
pub proof fn lemma_exactly_one_page<E>(size: BodySize, pulls: Seq<PulledView<E>>, end: int)
    requires
        0 <= end < pulls.len(),
        pulls[end] is End,
        forall|j: int| 0 <= j < end ==> !(#[trigger] pulls[j] is Failed),
    ensures
        pages(answers(BodyState::start(size), pulls)).len() == 1,
{
    let all = answers(BodyState::start(size), pulls);
    let i = lemma_page_by_end(size, pulls, end);
    lemma_one_page(size, pulls, i);
    lemma_pages_single(all, i, all[i].item->Chunk_0);
}

proof fn lemma_gathered_feed<E>(chunks: Seq<Seq<u8>>, i: int)
    requires
        0 <= i <= chunks.len(),
    ensures
        gathered(feed::<E>(chunks).take(i)) == chunks.take(i).flatten(),
    decreases i,
{
    if i > 0 {
        lemma_gathered_feed::<E>(chunks, i - 1);
        lemma_gathered_take(feed::<E>(chunks), i - 1);
        assert(chunks.take(i) =~= chunks.take(i - 1).push(chunks[i - 1]));
        chunks.take(i - 1).lemma_flatten_push(chunks[i - 1]);
    }
}

proof fn lemma_flatten_prefix(chunks: Seq<Seq<u8>>, i: int)
    requires
        0 <= i <= chunks.len(),
    ensures
        chunks.take(i).flatten().len() <= chunks.flatten().len(),
        chunks.take(i).flatten().len() == chunks.flatten().len() ==> chunks.take(i).flatten()
            == chunks.flatten(),
{
    assert(chunks =~= chunks.take(i) + chunks.skip(i));
    vstd::seq_lib::lemma_flatten_concat(chunks.take(i), chunks.skip(i));
}

/// Where the chunks of the wrapped body are cut makes no difference.
///
/// A wrapped body that gives `chunks` and then ends, and that declares no
/// size or one that its bytes do not exceed, gets exactly one chunk sent:
/// the page of its bytes joined. Two such bodies with the same bytes, cut
/// into chunks in different places, therefore send the same.
pub proof fn lemma_page_of_chunks<E>(size: BodySize, chunks: Seq<Seq<u8>>)
    requires
        size.exact() matches Some(n) ==> chunks.flatten().len() <= n,
    ensures
        pages(answers(BodyState::start(size), feed::<E>(chunks))) == seq![
            page_bytes(chunks.flatten()),
        ],
{
    let start = BodyState::start(size);
    let pulls = feed::<E>(chunks);
    let all = answers(start, pulls);
    let n = chunks.len() as int;
    let i = lemma_page_by_end(size, pulls, n);
    lemma_one_page(size, pulls, i);
    if i < n {
        lemma_gathered_feed::<E>(chunks, i + 1);
        lemma_flatten_prefix(chunks, i + 1);
    } else {
        lemma_gathered_feed::<E>(chunks, n);
        lemma_gathered_take(pulls, n);
        assert(chunks.take(n) =~= chunks);
    }
    lemma_pages_single(all, i, page_bytes(chunks.flatten()));
}

/// A body without a byte still gets its page: the bare shell.
///
/// Whatever size the wrapped body declares, if it ends before it gave a
/// chunk, exactly one chunk goes out, and it holds the shell with nothing in
/// it.
pub proof fn lemma_empty_body<E>(size: BodySize)
    ensures
        pages(answers(BodyState::start(size), feed::<E>(Seq::empty()))) == seq![
            vstd::utf8::encode_utf8(SHELL_OPEN@ + SHELL_CLOSE@),
        ],
{
    lemma_page_of_chunks::<E>(size, Seq::empty());
    lemma_empty_document();
}

/// The same bytes give the same page, however they are cut into chunks.
pub proof fn lemma_chunking_is_invisible<E>(
    size: BodySize,
    one: Seq<Seq<u8>>,
    other: Seq<Seq<u8>>,
)
    requires
        one.flatten() == other.flatten(),
        size.exact() matches Some(n) ==> one.flatten().len() <= n,
    ensures
        pages(answers(BodyState::start(size), feed::<E>(one))) == pages(
            answers(BodyState::start(size), feed::<E>(other)),
        ),
{
    lemma_page_of_chunks::<E>(size, one);
    lemma_page_of_chunks::<E>(size, other);
}

} // verus!
