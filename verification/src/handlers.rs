//! The request-handling rules of the HTTP surface: each handler takes the
//! shared counters, the store and the request's plain values, applies the
//! store operation, and says exactly which status and body come back.
//!
//! A value posted as a request body arrives as a stream of byte chunks. The
//! accumulation loop keeps at most [`crate::MAX_BODY_BYTES`] bytes and stops
//! as soon as the next chunk would push past the cap, without ever buffering
//! an oversized payload.

use vstd::prelude::*;
use crate::MAX_BODY_BYTES;
use crate::app_state::AppState;
use crate::app_state::saturating_inc;
use crate::db::DB;

verus! {

/// The statuses a handler can answer with.
#[derive(Clone, Copy, Debug, PartialEq, Eq, Structural)]
pub enum Status {
    Okay,
    PayloadTooLarge,
    UnprocessableEntity,
    PartialContent,
}

impl Status {
    /// The HTTP status code this answer is sent as.
    pub open spec fn spec_code(&self) -> u16 {
        match self {
            Status::Okay => 200,
            Status::PayloadTooLarge => 413,
            Status::UnprocessableEntity => 422,
            Status::PartialContent => 206,
        }
    }

    pub fn code(&self) -> (r: u16)
        ensures
            r == self.spec_code(),
    {
        match self {
            Status::Okay => 200,
            Status::PayloadTooLarge => 413,
            Status::UnprocessableEntity => 422,
            Status::PartialContent => 206,
        }
    }
}

/// What a handler answers: a status and a plain-text body.
pub struct Response {
    pub status: Status,
    pub body: String,
}

impl Response {
    /// Success with an empty body.
    pub fn ok_empty() -> (r: Response)
        ensures
            r.status == Status::Okay,
            r.body@ == Seq::<char>::empty(),
    {
        Response { status: Status::Okay, body: String::new() }
    }

    /// An answer with the given status and an empty body.
    pub fn empty(status: Status) -> (r: Response)
        ensures
            r.status == status,
            r.body@ == Seq::<char>::empty(),
    {
        Response { status, body: String::new() }
    }
}

/// The text that a byte sequence holds when it is valid UTF-8; `None` when
/// it is not.
pub uninterp spec fn utf8_decoded(bytes: Seq<u8>) -> Option<Seq<char>>;

/// Relies on `String::from_utf8`: it succeeds exactly when the bytes are
/// valid UTF-8, and then yields the text they encode; the outcome is a
/// function of the bytes alone.
#[verifier::external_body]
fn decode_utf8(bytes: Vec<u8>) -> (r: Option<String>)
    ensures
        r is Some <==> utf8_decoded(bytes@) is Some,
        r matches Some(s) ==> utf8_decoded(bytes@) == Some(s@),
{
    String::from_utf8(bytes).ok()
}

/// All the stream's chunks laid end to end.
pub open spec fn concat_chunks(chunks: Seq<Seq<u8>>) -> Seq<u8>
    decreases chunks.len(),
{
    if chunks.len() == 0 {
        Seq::empty()
    } else {
        concat_chunks(chunks.drop_last()) + chunks.last()
    }
}

/// One more chunk extends the concatenation by exactly that chunk.
pub proof fn lemma_concat_chunks_step(chunks: Seq<Seq<u8>>, i: int)
    requires
        0 <= i < chunks.len(),
    ensures
        concat_chunks(chunks.take(i + 1)) == concat_chunks(chunks.take(i)) + chunks[i],
{
    let prefix = chunks.take(i + 1);
    assert(prefix.drop_last() =~= chunks.take(i));
    assert(prefix.last() == chunks[i]);
}

/// A prefix of the stream never holds more bytes than the whole stream.
pub proof fn lemma_concat_chunks_prefix_len(chunks: Seq<Seq<u8>>, i: int)
    requires
        0 <= i <= chunks.len(),
    ensures
        concat_chunks(chunks.take(i)).len() <= concat_chunks(chunks).len(),
    decreases chunks.len() - i,
{
    if i == chunks.len() {
        assert(chunks.take(i) =~= chunks);
    } else {
        lemma_concat_chunks_step(chunks, i);
        lemma_concat_chunks_prefix_len(chunks, i + 1);
    }
}

/// Adds one chunk to the body being accumulated. Leaves the body untouched
/// and answers `false` exactly when taking the chunk would push the body
/// past the cap.
pub fn accumulate_body(body: &mut Vec<u8>, chunk: &Vec<u8>) -> (r: bool)
    requires
        old(body)@.len() <= MAX_BODY_BYTES,
    ensures
        r ==> final(body)@ == old(body)@ + chunk@ && final(body)@.len() <= MAX_BODY_BYTES,
        !r ==> final(body)@ == old(body)@ && old(body)@.len() + chunk@.len() > MAX_BODY_BYTES,
{
    if chunk.len() > MAX_BODY_BYTES - body.len() {
        return false;
    }
    let ghost orig = body@;
    let mut i: usize = 0;
    while i < chunk.len()
        invariant
            i <= chunk@.len(),
            body@ == orig + chunk@.take(i as int),
        decreases chunk@.len() - i,
    {
        body.push(chunk[i]);
        proof {
            assert(chunk@.take(i + 1) =~= chunk@.take(i as int).push(chunk@[i as int]));
        }
        i = i + 1;
    }
    proof {
        assert(chunk@.take(chunk@.len() as int) =~= chunk@);
    }
    true
}

/// Serves a read: bumps the read counter and answers 200 with the stored
/// value, or with the empty string when the key holds none (or the store
/// could not be read).
pub fn handle_get(state: &mut AppState, db: &DB, key: &str) -> (r: Response)
    ensures
        final(state).reads() == saturating_inc(old(state).reads()),
        final(state).writes() == old(state).writes(),
        final(state).startup_seconds() == old(state).startup_seconds(),
        r.status == Status::Okay,
        !db@.contains_key(key@) ==> r.body@ == Seq::<char>::empty(),
        db@.contains_key(key@) ==> r.body@ == db@[key@] || r.body@ == Seq::<char>::empty(),
{
    state.increment_reads();
    let msg = match db.read(key) {
        Ok(v) => v,
        Err(_) => String::new(),
    };
    Response { status: Status::Okay, body: msg }
}

/// Serves a write whose value came in the URL: bumps the write counter and
/// stores the value, answering 200 whether or not the store took it (a
/// failed write leaves the store as it was and is not surfaced).
pub fn handle_set_url(state: &mut AppState, db: &mut DB, key: &str, value: &str) -> (r: Response)
    ensures
        final(state).writes() == saturating_inc(old(state).writes()),
        final(state).reads() == old(state).reads(),
        final(state).startup_seconds() == old(state).startup_seconds(),
        final(db)@ == old(db)@.insert(key@, value@) || final(db)@ == old(db)@,
        r.status == Status::Okay,
        r.body@ == Seq::<char>::empty(),
{
    state.increment_writes();
    let _ignored = db.write(key, value);
    Response::ok_empty()
}

/// Finishes a body write once the bytes are fully accumulated: decodes them
/// as UTF-8 and stores the text, answering 422 on invalid bytes (store
/// untouched) and 200 otherwise (a failed write leaves the store as it was
/// and is not surfaced).
pub fn finish_set_body(db: &mut DB, key: &str, body: Vec<u8>) -> (r: Response)
    ensures
        utf8_decoded(body@) is None ==> r.status == Status::UnprocessableEntity && final(db)@
            == old(db)@,
        utf8_decoded(body@) matches Some(text) ==> r.status == Status::Okay
            && (final(db)@ == old(db)@.insert(key@, text) || final(db)@ == old(db)@),
        r.body@ == Seq::<char>::empty(),
{
    let text = match decode_utf8(body) {
        Some(s) => s,
        None => {
            return Response::empty(Status::UnprocessableEntity);
        },
    };
    let _ignored = db.write(key, text.as_str());
    Response::ok_empty()
}

/// Serves a write whose value comes as a stream of body chunks, ended either
/// cleanly (`stream_error` false) or by a transport failure (`stream_error`
/// true). Bumps the write counter, then accumulates the chunks under the
/// cap; the first obstacle in stream order decides the answer: 413 once the
/// bytes would pass the cap, else 206 on a transport failure, else 422 on
/// invalid UTF-8, else 200 with the text stored. Every failure leaves the
/// store as it was.
#[verifier::loop_isolation(false)]
pub fn handle_set_body(
    state: &mut AppState,
    db: &mut DB,
    key: &str,
    chunks: &Vec<Vec<u8>>,
    stream_error: bool,
) -> (r: Response)
    ensures
        final(state).writes() == saturating_inc(old(state).writes()),
        final(state).reads() == old(state).reads(),
        final(state).startup_seconds() == old(state).startup_seconds(),
        ({
            let total = concat_chunks(chunks.deep_view());
            &&& total.len() > MAX_BODY_BYTES ==> r.status == Status::PayloadTooLarge && final(db)@
                == old(db)@
            &&& total.len() <= MAX_BODY_BYTES && stream_error ==> r.status
                == Status::PartialContent && final(db)@ == old(db)@
            &&& total.len() <= MAX_BODY_BYTES && !stream_error && utf8_decoded(total) is None
                ==> r.status == Status::UnprocessableEntity && final(db)@ == old(db)@
            &&& total.len() <= MAX_BODY_BYTES && !stream_error ==> (utf8_decoded(total) matches Some(text)
                ==> r.status == Status::Okay
                    && (final(db)@ == old(db)@.insert(key@, text) || final(db)@ == old(db)@))
        }),
        r.body@ == Seq::<char>::empty(),
{
    state.increment_writes();
    let ghost all = chunks.deep_view();
    let mut body: Vec<u8> = Vec::new();
    let mut i: usize = 0;
    while i < chunks.len()
        invariant
            i <= chunks@.len(),
            all == chunks.deep_view(),
            body@ == concat_chunks(all.take(i as int)),
            body@.len() <= MAX_BODY_BYTES,
        decreases chunks@.len() - i,
    {
        proof {
            assert(all[i as int] == chunks@[i as int]@);
        }
        let took = accumulate_body(&mut body, &chunks[i]);
        proof {
            lemma_concat_chunks_step(all, i as int);
        }
        if !took {
            proof {
                lemma_concat_chunks_prefix_len(all, i + 1);
            }
            return Response::empty(Status::PayloadTooLarge);
        }
        i = i + 1;
    }
    proof {
        assert(all.take(chunks@.len() as int) =~= all);
    }
    if stream_error {
        return Response::empty(Status::PartialContent);
    }
    finish_set_body(db, key, body)
}

} // verus!
