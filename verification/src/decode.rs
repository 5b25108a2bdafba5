//! A whole decoding, from the first step to the outcome, and what holds of
//! every one.
//!
//! The stream is given as the events it would produce, in order; once they are
//! used up it reports its end. [`run`] plays the steps of
//! [`JsonBody`](crate::types::json::JsonBody) and
//! [`Aggregator`](crate::types::json::Aggregator) against such a stream, and
//! [`decode`] adds the schema parser. The theorems below are stated over these
//! two.
use crate::errors::{web_payload_error, JsonPayloadError};
use crate::length::{lemma_exceeds, number};
use crate::media::{verdict, MediaType};
use crate::types::json::{
    admitted, first_step, media_type, next_step, text_of, AggregatorView, Event, Json,
    JsonBodyView, StepView,
};
use vstd::prelude::*;

verus! {

/// How a decoding went.
pub struct Run {
    /// The complete body, or the error that ended the decoding.
    pub outcome: Result<Seq<u8>, JsonPayloadError>,
    /// How many times the stream was asked for an item.
    pub pulls: nat,
}

/// Plays the steps from `step` on against a stream that produces `events`
/// and then ends. Each `Read` pulls one item; `Parse` and `Fail` end the run.
pub open spec fn run(step: StepView, events: Seq<Event>) -> Run
    decreases events.len(),
{
    match step {
        StepView::Fail(err) => Run { outcome: Err(err), pulls: 0 },
        StepView::Parse(body) => Run { outcome: Ok(body), pulls: 0 },
        StepView::Read(state) => if events.len() == 0 {
            Run { outcome: Ok(state.held), pulls: 1 }
        } else {
            let rest = run(next_step(state, events[0]), events.skip(1));
            Run { outcome: rest.outcome, pulls: rest.pulls + 1 }
        },
    }
}

/// The step that is reached once `events` have been handed over, one for
/// each `Read`. Events that come after a `Parse` or a `Fail` are not looked
/// at.
pub open spec fn advance(step: StepView, events: Seq<Event>) -> StepView
    decreases events.len(),
{
    match step {
        StepView::Read(state) => if events.len() == 0 {
            step
        } else {
            advance(next_step(state, events[0]), events.skip(1))
        },
        _ => step,
    }
}

/// The outcome of decoding a request: the run of its body against the stream,
/// and then, for a complete body, the answer of the schema parser.
pub open spec fn decode<T>(
    body: JsonBodyView,
    events: Seq<Event>,
    parser: spec_fn(Seq<u8>) -> Result<T, dade::Error>,
) -> Result<Json<T>, JsonPayloadError> {
    match run(first_step(body), events).outcome {
        Ok(bytes) => Json::<T>::outcome(parser(bytes)),
        Err(err) => Err(err),
    }
}

/// Whether every event is a chunk.
pub open spec fn all_chunks(events: Seq<Event>) -> bool {
    forall|i: int| 0 <= i < events.len() ==> #[trigger] events[i] is Chunk
}

/// The bytes of the chunks among `events`, in order.
pub open spec fn bytes_of(events: Seq<Event>) -> Seq<u8>
    decreases events.len(),
{
    if events.len() == 0 {
        Seq::empty()
    } else {
        match events[0] {
            Event::Chunk(bytes) => bytes + bytes_of(events.skip(1)),
            _ => bytes_of(events.skip(1)),
        }
    }
}

/// Whether the first step of `body` starts reading: the headers settled no
/// error, and no length over the limit is declared.
pub open spec fn starts_reading(body: JsonBodyView) -> bool {
    body.err is None && (body.length matches Some(declared) ==> !declared.exceeds(body.limit))
}

/// A content type that cannot be accepted is refused; and a body whose content
/// type was refused fails with `ContentType` without the stream ever being
/// asked for an item, whatever the stream holds.
pub proof fn theorem_refusal_precedes_read<F: Fn(MediaType) -> bool>(
    content_type: Option<&str>,
    content_length: Option<&str>,
    predicate: Option<&F>,
    body: JsonBodyView,
    events: Seq<Event>,
)
    requires
        admitted(content_type, content_length, predicate, body),
    ensures
        !verdict(media_type(content_type), predicate, true) ==> body.err is Some,
        body.err is Some ==> run(first_step(body), events) == (Run {
            outcome: Err(JsonPayloadError::ContentType),
            pulls: 0,
        }),
{
}

/// A body with an accepted content type whose content-length header writes a
/// number over the limit fails with `Overflow` without the stream ever being
/// asked for an item, whatever the stream holds. The number need not fit in
/// a `usize`.
pub proof fn theorem_fast_rejection<F: Fn(MediaType) -> bool>(
    content_type: Option<&str>,
    content_length: Option<&str>,
    predicate: Option<&F>,
    body: JsonBodyView,
    events: Seq<Event>,
)
    requires
        admitted(content_type, content_length, predicate, body),
        body.err is None,
        content_length matches Some(text) && number(text@) matches Some(n) && n > body.limit,
    ensures
        run(first_step(body), events) == (Run {
            outcome: Err(JsonPayloadError::Overflow),
            pulls: 0,
        }),
{
    lemma_exceeds(number(content_length->0@)->0, body.limit);
}

/// A content-length header that is missing, is no number, or writes a number
/// within the limit does not keep a body with an accepted content type from
/// being read.
pub proof fn theorem_length_within<F: Fn(MediaType) -> bool>(
    content_type: Option<&str>,
    content_length: Option<&str>,
    predicate: Option<&F>,
    body: JsonBodyView,
)
    requires
        admitted(content_type, content_length, predicate, body),
        body.err is None,
        content_length matches Some(text) ==> (number(text@) matches Some(n) ==> n <= body.limit),
    ensures
        starts_reading(body),
{
    if let Some(text) = content_length {
        if let Some(n) = number(text@) {
            lemma_exceeds(n, body.limit);
        }
    }
}

/// While a body is read, the buffer never holds more than the limit, and the
/// limit never changes: both hold of every `Read` that any events lead to.
pub proof fn theorem_buffer_bounded(state: AggregatorView, events: Seq<Event>)
    requires
        state.held.len() <= state.limit,
    ensures
        advance(StepView::Read(state), events) matches StepView::Read(reached) ==> reached.limit
            == state.limit && reached.held.len() <= reached.limit,
        advance(StepView::Read(state), events) matches StepView::Parse(body) ==> body.len()
            <= state.limit,
    decreases events.len(),
{
    if events.len() > 0 {
        if let StepView::Read(next) = next_step(state, events[0]) {
            theorem_buffer_bounded(next, events.skip(1));
        }
    }
}

/// Chunks that fit under the limit together with what is held are all
/// appended: the run ends with the bytes held followed by theirs, after one
/// pull for each chunk and one that finds the end of the stream.
pub proof fn lemma_chunks_within(state: AggregatorView, events: Seq<Event>)
    requires
        all_chunks(events),
        state.held.len() + bytes_of(events).len() <= state.limit,
    ensures
        run(StepView::Read(state), events) == (Run {
            outcome: Ok(state.held + bytes_of(events)),
            pulls: events.len() + 1,
        }),
        advance(StepView::Read(state), events) == StepView::Read(
            AggregatorView { limit: state.limit, held: state.held + bytes_of(events) },
        ),
    decreases events.len(),
{
    if events.len() == 0 {
        assert(state.held + bytes_of(events) =~= state.held);
    } else {
        assert(events[0] is Chunk);
        let bytes = events[0]->Chunk_0;
        let rest = events.skip(1);
        assert(all_chunks(rest)) by {
            assert forall|i: int| 0 <= i < rest.len() implies #[trigger] rest[i] is Chunk by {
                assert(rest[i] == events[i + 1]);
            }
        }
        let next = AggregatorView { limit: state.limit, held: state.held + bytes };
        lemma_chunks_within(next, rest);
        assert(next.held + bytes_of(rest) =~= state.held + bytes_of(events));
    }
}

/// Chunks that together with what is held are more than the limit end the
/// run with `Overflow`, before the end of the stream is looked for.
pub proof fn lemma_chunks_beyond(state: AggregatorView, events: Seq<Event>)
    requires
        state.held.len() <= state.limit,
        all_chunks(events),
        state.held.len() + bytes_of(events).len() > state.limit,
    ensures
        run(StepView::Read(state), events).outcome == Err::<Seq<u8>, _>(
            JsonPayloadError::Overflow,
        ),
        1 <= run(StepView::Read(state), events).pulls <= events.len(),
    decreases events.len(),
{
    if events.len() > 0 {
        assert(events[0] is Chunk);
        let bytes = events[0]->Chunk_0;
        let rest = events.skip(1);
        if state.held.len() + bytes.len() <= state.limit {
            assert(all_chunks(rest)) by {
                assert forall|i: int| 0 <= i < rest.len() implies #[trigger] rest[i] is Chunk by {
                    assert(rest[i] == events[i + 1]);
                }
            }
            let next = AggregatorView { limit: state.limit, held: state.held + bytes };
            lemma_chunks_beyond(next, rest);
        } else {
            assert(run(StepView::Fail(JsonPayloadError::Overflow), rest) == (Run {
                outcome: Err(JsonPayloadError::Overflow),
                pulls: 0,
            }));
        }
    }
}

/// A body whose chunks are more than the limit in all fails with `Overflow`,
/// whether a length was declared or not, provided its content type was
/// accepted; and it fails without the stream being asked for more than its
/// chunks.
pub proof fn theorem_bounded_memory(body: JsonBodyView, events: Seq<Event>)
    requires
        body.err is None,
        all_chunks(events),
        bytes_of(events).len() > body.limit,
    ensures
        run(first_step(body), events).outcome == Err::<Seq<u8>, _>(JsonPayloadError::Overflow),
        run(first_step(body), events).pulls <= events.len(),
{
    if starts_reading(body) {
        lemma_chunks_beyond(AggregatorView { limit: body.limit, held: Seq::empty() }, events);
    }
}

/// A body of exactly as many bytes as the limit is complete at the end of the
/// stream, with every byte in place; one byte more fails with `Overflow`.
pub proof fn theorem_exact_limit(body: JsonBodyView, events: Seq<Event>)
    requires
        starts_reading(body),
        all_chunks(events),
    ensures
        bytes_of(events).len() == body.limit ==> run(first_step(body), events) == (Run {
            outcome: Ok(bytes_of(events)),
            pulls: events.len() + 1,
        }),
        bytes_of(events).len() == body.limit + 1 ==> run(first_step(body), events).outcome
            == Err::<Seq<u8>, _>(JsonPayloadError::Overflow),
{
    let start = AggregatorView { limit: body.limit, held: Seq::empty() };
    if bytes_of(events).len() <= body.limit {
        lemma_chunks_within(start, events);
        assert(start.held + bytes_of(events) =~= bytes_of(events));
    } else {
        lemma_chunks_beyond(start, events);
    }
}

/// A run over events of which the first ones leave it reading goes on from
/// the state reached, and has pulled one item for each of them.
proof fn lemma_run_after(state: AggregatorView, before: Seq<Event>, after: Seq<Event>)
    requires
        advance(StepView::Read(state), before) is Read,
    ensures
        run(StepView::Read(state), before + after) == ({
            let rest = run(advance(StepView::Read(state), before), after);
            Run { outcome: rest.outcome, pulls: rest.pulls + before.len() }
        }),
    decreases before.len(),
{
    if before.len() == 0 {
        assert(before + after =~= after);
    } else {
        let all = before + after;
        assert(all[0] == before[0]);
        assert(all.skip(1) =~= before.skip(1) + after);
        match next_step(state, before[0]) {
            StepView::Read(next) => {
                lemma_run_after(next, before.skip(1), after);
            },
            _ => {
                assert(advance(next_step(state, before[0]), before.skip(1)) == next_step(
                    state,
                    before[0],
                ));
            },
        }
    }
}

/// The first chunk that does not fit ends the run with `Overflow`: the stream
/// has been asked for the chunks before it and for that chunk, and is not
/// asked again, whatever it would have produced afterwards.
pub proof fn theorem_overflow_stops_reading(
    body: JsonBodyView,
    chunks: Seq<Event>,
    excess: Seq<u8>,
    later: Seq<Event>,
)
    requires
        starts_reading(body),
        all_chunks(chunks),
        bytes_of(chunks).len() <= body.limit,
        bytes_of(chunks).len() + excess.len() > body.limit,
    ensures
        run(first_step(body), chunks + seq![Event::Chunk(excess)] + later) == (Run {
            outcome: Err(JsonPayloadError::Overflow),
            pulls: chunks.len() + 1,
        }),
{
    let start = AggregatorView { limit: body.limit, held: Seq::empty() };
    let tail = seq![Event::Chunk(excess)] + later;
    lemma_chunks_within(start, chunks);
    lemma_run_after(start, chunks, tail);
    assert(chunks + seq![Event::Chunk(excess)] + later =~= chunks + tail);
    assert(tail[0] == Event::Chunk(excess));
    assert(start.held + bytes_of(chunks) =~= bytes_of(chunks));
    assert(run(StepView::Fail(JsonPayloadError::Overflow), tail.skip(1)) == (Run {
        outcome: Err(JsonPayloadError::Overflow),
        pulls: 0,
    }));
}

/// If the stream fails after chunks that fit under the limit, decoding fails
/// with `Payload` around that very failure, whatever the stream would have
/// produced afterwards: the stream has been asked for the chunks and for the
/// failing item, and is not asked again. The chunks received are not parsed.
pub proof fn theorem_transport_failure<T>(
    body: JsonBodyView,
    chunks: Seq<Event>,
    cause: ntex::http::error::PayloadError,
    later: Seq<Event>,
    parser: spec_fn(Seq<u8>) -> Result<T, dade::Error>,
)
    requires
        starts_reading(body),
        all_chunks(chunks),
        bytes_of(chunks).len() <= body.limit,
    ensures
        run(first_step(body), chunks + seq![Event::Failed(cause)] + later) == (Run {
            outcome: Err(JsonPayloadError::Payload(web_payload_error(cause))),
            pulls: chunks.len() + 1,
        }),
        decode(body, chunks + seq![Event::Failed(cause)] + later, parser) == Err::<Json<T>, _>(
            JsonPayloadError::Payload(web_payload_error(cause)),
        ),
{
    let start = AggregatorView { limit: body.limit, held: Seq::empty() };
    let tail = seq![Event::Failed(cause)] + later;
    lemma_chunks_within(start, chunks);
    lemma_run_after(start, chunks, tail);
    assert(chunks + seq![Event::Failed(cause)] + later =~= chunks + tail);
    assert(tail[0] == Event::Failed(cause));
    let failure = JsonPayloadError::Payload(web_payload_error(cause));
    assert(run(StepView::Fail(failure), tail.skip(1)) == (Run { outcome: Err(failure), pulls: 0 }));
}

/// If the body is complete and the schema parser refuses it, decoding fails
/// with `Deserialize` around the parser's error, and with nothing else.
pub proof fn theorem_schema_failure<T>(
    body: JsonBodyView,
    events: Seq<Event>,
    parser: spec_fn(Seq<u8>) -> Result<T, dade::Error>,
    cause: dade::Error,
)
    requires
        starts_reading(body),
        all_chunks(events),
        bytes_of(events).len() <= body.limit,
        parser(bytes_of(events)) == Err::<T, _>(cause),
    ensures
        decode(body, events, parser) == Err::<Json<T>, _>(JsonPayloadError::Deserialize(cause)),
{
    let start = AggregatorView { limit: body.limit, held: Seq::empty() };
    lemma_chunks_within(start, events);
    assert(start.held + bytes_of(events) =~= bytes_of(events));
}

/// If the body is complete and the schema parser accepts it, decoding
/// succeeds with the parsed value.
pub proof fn theorem_success<T>(
    body: JsonBodyView,
    events: Seq<Event>,
    parser: spec_fn(Seq<u8>) -> Result<T, dade::Error>,
    value: T,
)
    requires
        starts_reading(body),
        all_chunks(events),
        bytes_of(events).len() <= body.limit,
        parser(bytes_of(events)) == Ok::<T, dade::Error>(value),
    ensures
        decode(body, events, parser) == Ok::<_, JsonPayloadError>(Json(value)),
{
    let start = AggregatorView { limit: body.limit, held: Seq::empty() };
    lemma_chunks_within(start, events);
    assert(start.held + bytes_of(events) =~= bytes_of(events));
}

} // verus!
