//! Decoding a JSON body, step by step.
//!
//! A [`JsonBody`] is made from the headers of a request. Its first
//! [`poll`](JsonBody::poll) decides whether the body is read at all. From then
//! on an [`Aggregator`] takes what the stream yields, one item per
//! [`poll`](Aggregator::poll), and answers each time with the next [`Step`]:
//! read on, hand the complete body to the schema parser, or give up.
//! [`Json::parse`] runs the parser and turns its answer into the final
//! outcome.
use crate::buffer::{
    append_chunk, buffer_bytes, buffer_len, buffer_slice, chunk_bytes, chunk_len, largest_buffer,
    max_buffer, new_buffer, INITIAL_CAPACITY,
};
use crate::errors::{web_payload_error, JsonPayloadError};
use crate::length::{declared_length, parse_length, Length};
use crate::media::{accepts, media_type_of, parse_media_type, verdict, MediaType};
use ntex::http::error::PayloadError as TransportError;
use ntex::util::{Bytes, BytesMut};
use vstd::prelude::*;

verus! {

/// The limit of a [`JsonConfig`] that was given none, in bytes.
pub const DEFAULT_LIMIT: usize = 32_768;

/// The limit of a [`JsonBody`] that was given none, in bytes.
pub const DEFAULT_BODY_LIMIT: usize = 262_144;

/// A value that was decoded from a JSON body.
pub struct Json<T>(pub T);

impl<T> Json<T> {
    /// Takes the decoded value out.
    pub fn into_inner(self) -> (inner: T)
        ensures
            inner == self.0,
    {
        self.0
    }

    /// The outcome of decoding, given what the schema parser made of the
    /// complete body: the parsed value, or the parser's error as
    /// [`JsonPayloadError::Deserialize`].
    pub open spec fn outcome(parsed: Result<T, dade::Error>) -> Result<Json<T>, JsonPayloadError> {
        match parsed {
            Ok(value) => Ok(Json(value)),
            Err(cause) => Err(JsonPayloadError::Deserialize(cause)),
        }
    }

    /// Ends the decoding with the answer of the schema parser.
    ///
    /// A parsed value is returned as it is. An error of the parser is passed
    /// on, unchanged, inside [`JsonPayloadError::Deserialize`].
    pub fn from_parsed(parsed: Result<T, dade::Error>) -> (outcome: Result<Json<T>, JsonPayloadError>)
        ensures
            outcome == Self::outcome(parsed),
    {
        match parsed {
            Ok(value) => Ok(Json(value)),
            Err(cause) => Err(JsonPayloadError::Deserialize(cause)),
        }
    }

    /// Hands a complete body to the schema parser and ends the decoding with
    /// its answer.
    ///
    /// The parser is called once, on exactly the bytes of `body`. A parsed
    /// value is returned as it is; an error of the parser is passed on,
    /// unchanged, inside [`JsonPayloadError::Deserialize`].
    pub fn parse<P>(body: &BytesMut, parser: P) -> (outcome: Result<Json<T>, JsonPayloadError>) where
        P: FnOnce(&[u8]) -> Result<T, dade::Error>,

        requires
            forall|bytes: &[u8]| bytes@ == buffer_bytes(*body) ==> call_requires(parser, (bytes,)),
        ensures
            exists|bytes: &[u8], parsed: Result<T, dade::Error>|
                bytes@ == buffer_bytes(*body) && call_ensures(parser, (bytes,), parsed) && outcome
                    == Self::outcome(parsed),
    {
        let bytes = buffer_slice(body);
        let parsed = parser(bytes);
        Json::from_parsed(parsed)
    }
}

impl<T> std::ops::Deref for Json<T> {
    type Target = T;

    fn deref(&self) -> (inner: &T)
        ensures
            *inner == self.0,
    {
        &self.0
    }
}

impl<T> std::ops::DerefMut for Json<T> {
    fn deref_mut(&mut self) -> (inner: &mut T)
        ensures
            *inner == old(self).0,
            final(self).0 == *final(inner),
    {
        &mut self.0
    }
}

/// How JSON bodies are decoded on a route: the size limit, and which content
/// types count as JSON besides those that say so by name.
#[derive(Clone)]
pub struct JsonConfig<F> {
    limit: usize,
    content_type: Option<F>,
}

impl<F> JsonConfig<F> {
    /// The largest body that is decoded, in bytes.
    pub closed spec fn max_size(self) -> usize {
        self.limit
    }

    /// The predicate that admits further content types, if one was set.
    pub closed spec fn predicate(self) -> Option<F> {
        self.content_type
    }

    /// Sets the largest body that is decoded, in bytes.
    pub fn limit(self, limit: usize) -> (config: Self)
        ensures
            config.max_size() == limit,
            config.predicate() == self.predicate(),
    {
        JsonConfig { limit, content_type: self.content_type }
    }

    /// Sets the predicate that admits content types which do not name JSON.
    pub fn content_type<G>(self, predicate: G) -> (config: JsonConfig<G>) where
        G: Fn(MediaType) -> bool,

        ensures
            config.max_size() == self.max_size(),
            config.predicate() == Some(predicate),
    {
        JsonConfig { limit: self.limit, content_type: Some(predicate) }
    }
}

impl<F> Default for JsonConfig<F> {
    /// A limit of 32 KiB and no predicate.
    fn default() -> (config: Self)
        ensures
            config.max_size() == DEFAULT_LIMIT,
            config.predicate() is None,
    {
        JsonConfig { limit: DEFAULT_LIMIT, content_type: None }
    }
}

/// What a body stream does when it is asked for its next item.
pub enum Event {
    /// It yields a chunk of these bytes.
    Chunk(Seq<u8>),
    /// It fails with a transport error.
    Failed(TransportError),
    /// It reports that the body is complete.
    End,
}

/// The event that an item of the stream stands for.
pub open spec fn event_of(item: Option<Result<Bytes, TransportError>>) -> Event {
    match item {
        Some(Ok(chunk)) => Event::Chunk(chunk_bytes(chunk)),
        Some(Err(cause)) => Event::Failed(cause),
        None => Event::End,
    }
}

/// What is known of a body before its stream is touched.
pub struct JsonBodyView {
    /// The largest body that is decoded, in bytes.
    pub limit: usize,
    /// The length that the request declares, if it declares one.
    pub length: Option<Length>,
    /// The error that the headers already settle, if they do.
    pub err: Option<JsonPayloadError>,
}

/// What an [`Aggregator`] holds between two items of the stream.
pub struct AggregatorView {
    /// The largest body that is decoded, in bytes.
    pub limit: usize,
    /// The bytes received so far, in the order of arrival.
    pub held: Seq<u8>,
}

/// What a [`Step`] asks for.
pub enum StepView {
    /// Pull the next item from the stream, with this much collected.
    Read(AggregatorView),
    /// The body is complete: these are its bytes.
    Parse(Seq<u8>),
    /// Decoding ended with this error.
    Fail(JsonPayloadError),
}

/// The first step for a body: fail with the error that the headers settle,
/// fail with `Overflow` if the declared length is over the limit, and
/// otherwise start reading with an empty buffer.
pub open spec fn first_step(body: JsonBodyView) -> StepView {
    match body.err {
        Some(err) => StepView::Fail(err),
        None => if body.length matches Some(declared) && declared.exceeds(body.limit) {
            StepView::Fail(JsonPayloadError::Overflow)
        } else {
            StepView::Read(AggregatorView { limit: body.limit, held: Seq::empty() })
        },
    }
}

/// The step that follows an event of the stream.
///
/// A chunk is appended if the bytes held and the chunk together stay within
/// the limit, and reading goes on; if they do not, decoding fails with
/// `Overflow`. A transport error fails decoding with `Payload`. At the end of
/// the stream the bytes held are the complete body.
pub open spec fn next_step(state: AggregatorView, event: Event) -> StepView {
    match event {
        Event::Chunk(bytes) => if state.held.len() + bytes.len() > state.limit {
            StepView::Fail(JsonPayloadError::Overflow)
        } else {
            StepView::Read(AggregatorView { limit: state.limit, held: state.held + bytes })
        },
        Event::Failed(cause) => StepView::Fail(JsonPayloadError::Payload(web_payload_error(cause))),
        Event::End => StepView::Parse(state.held),
    }
}

/// The media type of a content-type header, `None` if the header is missing
/// or does not parse.
pub open spec fn media_type(content_type: Option<&str>) -> Option<MediaType> {
    match content_type {
        Some(text) => media_type_of(text@),
        None => None,
    }
}

/// The text of a header, if the header is there.
pub open spec fn text_of(header: Option<&str>) -> Option<Seq<char>> {
    match header {
        Some(text) => Some(text@),
        None => None,
    }
}

/// Whether `body` is what the headers of a request and a predicate allow.
///
/// Either the content type is accepted, no error is recorded and the declared
/// length is that of the content-length header; or the content type is
/// refused, `ContentType` is recorded and no length.
pub open spec fn admitted<F: Fn(MediaType) -> bool>(
    content_type: Option<&str>,
    content_length: Option<&str>,
    predicate: Option<&F>,
    body: JsonBodyView,
) -> bool {
    &&& verdict(media_type(content_type), predicate, body.err is None)
    &&& body.err is None ==> body.length == declared_length(text_of(content_length))
    &&& body.err is Some ==> body.err == Some(JsonPayloadError::ContentType) && body.length is None
}

/// A body that waits to be decoded: what the headers of its request say, and
/// the limit that holds for it.
#[derive(Debug)]
pub struct JsonBody {
    limit: usize,
    length: Option<Length>,
    err: Option<JsonPayloadError>,
}

impl View for JsonBody {
    type V = JsonBodyView;

    closed spec fn view(&self) -> JsonBodyView {
        JsonBodyView { limit: self.limit, length: self.length, err: self.err }
    }
}

/// The buffer of a body that is being read, together with its limit. It never
/// holds more bytes than the limit.
#[derive(Debug)]
pub struct Aggregator {
    limit: usize,
    body: BytesMut,
}

impl View for Aggregator {
    type V = AggregatorView;

    closed spec fn view(&self) -> AggregatorView {
        AggregatorView { limit: self.limit, held: buffer_bytes(self.body) }
    }
}

/// What the caller does next.
#[derive(Debug)]
pub enum Step {
    /// Pull the next item from the stream and hand it to
    /// [`Aggregator::poll`].
    Read(Aggregator),
    /// The body is complete: hand it to [`Json::parse`] together with the
    /// schema parser.
    Parse(BytesMut),
    /// Report this error. The stream is not read any further.
    Fail(JsonPayloadError),
}

impl View for Step {
    type V = StepView;

    open spec fn view(&self) -> StepView {
        match *self {
            Step::Read(state) => StepView::Read(state@),
            Step::Parse(body) => StepView::Parse(buffer_bytes(body)),
            Step::Fail(err) => StepView::Fail(err),
        }
    }
}

impl JsonBody {
    /// Checks the headers of a request, with a limit of 256 KiB.
    ///
    /// The content type passes if its media type names JSON, or if
    /// `predicate` says so. If it does not pass, `ContentType` is recorded for
    /// the first [`poll`](JsonBody::poll) to report. If it passes, the length
    /// that `content_length` declares is recorded, if it declares one.
    pub fn new<F: Fn(MediaType) -> bool>(
        content_type: Option<&str>,
        content_length: Option<&str>,
        predicate: Option<&F>,
    ) -> (body: Self)
        requires
            predicate matches Some(p) ==> forall|media: MediaType| call_requires(*p, (media,)),
        ensures
            body@.limit == DEFAULT_BODY_LIMIT,
            admitted(content_type, content_length, predicate, body@),
    {
        let parsed = match content_type {
            Some(text) => parse_media_type(text),
            None => None,
        };
        if !accepts(parsed, predicate) {
            return JsonBody {
                limit: DEFAULT_BODY_LIMIT,
                length: None,
                err: Some(JsonPayloadError::ContentType),
            };
        }
        let length = match content_length {
            Some(text) => parse_length(text),
            None => None,
        };
        JsonBody { limit: DEFAULT_BODY_LIMIT, length, err: None }
    }

    /// Checks the headers of a request under the configuration of its route:
    /// the limit and the predicate are those of `config`, or 32 KiB and no
    /// predicate where the route has no configuration.
    pub fn from_request<F: Fn(MediaType) -> bool>(
        config: Option<&JsonConfig<F>>,
        content_type: Option<&str>,
        content_length: Option<&str>,
    ) -> (body: Self)
        requires
            config matches Some(c) ==> (c.predicate() matches Some(p) ==> forall|media: MediaType|
                call_requires(p, (media,))),
        ensures
            body@.limit == match config {
                Some(c) => c.max_size(),
                None => DEFAULT_LIMIT,
            },
            admitted(
                content_type,
                content_length,
                match config {
                    Some(c) => match c.predicate() {
                        Some(p) => Some(&p),
                        None => None,
                    },
                    None => None,
                },
                body@,
            ),
    {
        match config {
            Some(c) => JsonBody::new(content_type, content_length, c.content_type.as_ref()).limit(
                c.limit,
            ),
            None => JsonBody::new::<F>(content_type, content_length, None).limit(DEFAULT_LIMIT),
        }
    }

    /// Whether the content type passed. A body whose content type passed is
    /// read unless it declares a length over the limit.
    pub fn is_accepted(&self) -> (yes: bool)
        ensures
            yes == (self@.err is None),
    {
        self.err.is_none()
    }

    /// Sets the largest body that is decoded, in bytes.
    pub fn limit(self, limit: usize) -> (body: Self)
        ensures
            body@ == (JsonBodyView { limit, ..self@ }),
    {
        JsonBody { limit, length: self.length, err: self.err }
    }

    /// Decides, before anything is read, whether the body is read.
    ///
    /// Reports the error that the headers settled, or `Overflow` for a
    /// declared length over the limit. Otherwise reading starts, with an
    /// empty buffer.
    pub fn poll(self) -> (step: Step)
        ensures
            step@ == first_step(self@),
    {
        if let Some(err) = self.err {
            return Step::Fail(err);
        }
        if let Some(declared) = self.length {
            if declared.is_over(self.limit) {
                return Step::Fail(JsonPayloadError::Overflow);
            }
        }
        let body = new_buffer(INITIAL_CAPACITY);
        Step::Read(Aggregator { limit: self.limit, body })
    }
}

impl Aggregator {
    #[verifier::type_invariant]
    spec fn bounded(self) -> bool {
        buffer_bytes(self.body).len() <= self.limit
    }

    /// The number of bytes held, which is never more than the limit.
    pub fn len(&self) -> (held: usize)
        ensures
            held == self@.held.len(),
            held <= self@.limit,
    {
        proof {
            use_type_invariant(self);
        }
        buffer_len(&self.body)
    }

    /// Whether the buffer can take `item`: a chunk that fits under the limit
    /// must also leave the buffer within [`max_buffer`] bytes.
    pub open spec fn takes(self, item: Option<Result<Bytes, TransportError>>) -> bool {
        item matches Some(Ok(chunk)) ==> {
            let size = self@.held.len() + chunk_bytes(chunk).len();
            size <= self@.limit ==> size <= max_buffer()
        }
    }

    /// Whether the buffer can take `item`. It always can where the limit is at
    /// most [`max_buffer`].
    pub fn fits(&self, item: &Option<Result<Bytes, TransportError>>) -> (yes: bool)
        ensures
            yes == self.takes(*item),
            self@.limit <= max_buffer() ==> yes,
    {
        match item {
            Some(Ok(chunk)) => {
                let held: usize = buffer_len(&self.body);
                let more: usize = chunk_len(chunk);
                let max: usize = largest_buffer();
                more > self.limit || held > self.limit - more || (more <= max && held <= max
                    - more)
            },
            _ => true,
        }
    }

    /// Takes the next item of the stream.
    ///
    /// A chunk is appended and reading goes on, unless the bytes held and the
    /// chunk together are more than the limit: then decoding fails with
    /// `Overflow` and the buffer is dropped. A transport error fails decoding
    /// with `Payload`, and the buffer is dropped. At the end of the stream the
    /// buffer is handed out for parsing.
    pub fn poll(self, item: Option<Result<Bytes, TransportError>>) -> (step: Step)
        requires
            self.takes(item),
        ensures
            step@ == next_step(self@, event_of(item)),
            step@ matches StepView::Read(state) ==> state.held.len() <= state.limit,
            step@ matches StepView::Parse(body) ==> body.len() <= self@.limit,
    {
        proof {
            use_type_invariant(&self);
        }
        let Aggregator { limit, mut body } = self;
        match item {
            None => Step::Parse(body),
            Some(Err(cause)) => Step::Fail(JsonPayloadError::from(cause)),
            Some(Ok(chunk)) => {
                let held: usize = buffer_len(&body);
                let more: usize = chunk_len(&chunk);
                if more > limit || held > limit - more {
                    Step::Fail(JsonPayloadError::Overflow)
                } else {
                    append_chunk(&mut body, &chunk);
                    Step::Read(Aggregator { limit, body })
                }
            },
        }
    }
}

} // verus!
