//! Fetch-or-cache: the two steps through which every typed accessor gets its
//! data. The first consults the cache and, on a miss, says which request to
//! send; the second takes what the transport made of that request.
//!
//! The transport itself is not here. Whoever drives a client sends the
//! request of a [`Step::Send`] and hands the outcome to [`fetched_resp`].
use vstd::prelude::*;
use vstd::utf8::{decode_utf8, valid_utf8};
use crate::constants::Region;
use crate::error::ClientError;
use crate::types::{Cache, OutboundRequest, RequestDescriptor, TransportOutcome};

verus! {

/// How the first step of a call ended.
#[derive(Debug)]
pub enum Step<T> {
    /// The call is over: the cache held a body for the URL.
    Done(Result<T, ClientError>),
    /// The cache holds nothing for the URL: this request is to be sent.
    Send(OutboundRequest),
}

/// The request that a descriptor stands for: its URL, with the
/// `X-Riot-Token` header exactly when the descriptor carries a key.
pub open spec fn request_for(d: RequestDescriptor) -> OutboundRequest {
    OutboundRequest { url: d.url, riot_token: d.auth }
}

/// The body that the cache holds for a descriptor. The key is the URL; the
/// descriptor's API key plays no part.
pub open spec fn cached_text(cache: Map<Seq<char>, Seq<char>>, d: RequestDescriptor) -> Option<
    Seq<char>,
> {
    if cache.contains_key(d.url@) {
        Some(cache[d.url@])
    } else {
        None
    }
}

/// What a call returns once the decoder has been at the body.
pub open spec fn served<T>(parsed: Option<T>) -> Result<T, ClientError> {
    match parsed {
        Some(value) => Ok(value),
        None => Err(ClientError::DeserializationError),
    }
}

/// The text that a response body is read as: its UTF-8 decoding, with each
/// ill-formed part replaced by U+FFFD.
pub uninterp spec fn lossy_text(bytes: Seq<u8>) -> Seq<char>;

/// The error that an outcome ends the call with before its body is looked
/// at: the transport's failure, or the error of the status code.
pub open spec fn rejection(region: Region, outcome: TransportOutcome) -> Option<ClientError> {
    match outcome {
        TransportOutcome::Failed { fault } => Some(ClientError::TransportError { fault }),
        TransportOutcome::Response { status, body } => ClientError::of_status(region, status),
    }
}

/// The body text of an outcome.
pub open spec fn body_text(outcome: TransportOutcome) -> Seq<char> {
    match outcome {
        TransportOutcome::Failed { fault } => Seq::empty(),
        TransportOutcome::Response { status, body } => lossy_text(body@),
    }
}

/// The cache after the second step: the body text is stored under the URL
/// when the outcome was not rejected and the body decoded, and nothing
/// changes otherwise.
pub open spec fn after_fetch(
    cache: Map<Seq<char>, Seq<char>>,
    region: Region,
    d: RequestDescriptor,
    outcome: TransportOutcome,
    decoded: bool,
) -> Map<Seq<char>, Seq<char>> {
    if rejection(region, outcome) is None && decoded {
        cache.insert(d.url@, body_text(outcome))
    } else {
        cache
    }
}

/// What the first step promises of its result: on a miss, the request of
/// the descriptor; on a hit, what the decoder made of the stored text.
pub open spec fn first_step<T, D: FnOnce(&str) -> Option<T>>(
    cache: Map<Seq<char>, Seq<char>>,
    d: RequestDescriptor,
    decode: D,
    step: Step<T>,
) -> bool {
    match cached_text(cache, d) {
        None => step == Step::<T>::Send(request_for(d)),
        Some(text) => exists|s: &str, parsed: Option<T>|
            s@ == text && #[trigger] call_ensures(decode, (s,), parsed) && step == Step::Done(
                served(parsed),
            ),
    }
}

/// What the second step promises of its result: the error that rejects the
/// outcome, else what the decoder made of the body text.
pub open spec fn second_step<T, D: FnOnce(&str) -> Option<T>>(
    region: Region,
    outcome: TransportOutcome,
    decode: D,
    r: Result<T, ClientError>,
) -> bool {
    match rejection(region, outcome) {
        Some(e) => r == Err::<T, ClientError>(e),
        None => exists|s: &str, parsed: Option<T>|
            s@ == body_text(outcome) && #[trigger] call_ensures(decode, (s,), parsed) && r
                == served(parsed),
    }
}

/// Two decoders agree when they make the same of the same text. A decoder
/// agrees with itself when its result depends on the text alone.
pub open spec fn agree<T, D1: FnOnce(&str) -> Option<T>, D2: FnOnce(&str) -> Option<T>>(
    first: D1,
    second: D2,
) -> bool {
    forall|s1: &str, s2: &str, p1: Option<T>, p2: Option<T>|
        s1@ == s2@ && #[trigger] call_ensures(first, (s1,), p1) && #[trigger] call_ensures(
            second,
            (s2,),
            p2,
        ) ==> p1 == p2
}

/// Reads a response body as text with `String::from_utf8_lossy`: the
/// decoding of a well-formed body, and the lossy reading of any other.
#[verifier::external_body]
pub(crate) fn read_body(bytes: &[u8]) -> (text: String)
    ensures
        text@ == lossy_text(bytes@),
        valid_utf8(bytes@) ==> text@ == decode_utf8(bytes@),
{
    String::from_utf8_lossy(bytes).into_owned()
}

/// First step of a call: serve the descriptor from the cache, or say which
/// request to send.
///
/// On a hit the stored body is decoded and the call is over; a body that
/// does not decode ends it with `DeserializationError`. The cache is only
/// read.
pub fn cached_resp<T, D>(cache: &Cache, d: &RequestDescriptor, decode: D) -> (step: Step<T>)
    where D: FnOnce(&str) -> Option<T>
    requires
        forall|s: &str| call_requires(decode, (s,)),
    ensures
        first_step(cache@, *d, decode, step),
{
    match cache.lookup(d.url.as_str()) {
        Some(text) => {
            let s = text.as_str();
            let parsed = decode(s);
            assert(call_ensures(decode, (s,), parsed));
            match parsed {
                Some(value) => Step::Done(Ok(value)),
                None => Step::Done(Err(ClientError::DeserializationError)),
            }
        },
        None => Step::Send(OutboundRequest { url: d.url.clone(), riot_token: d.auth.clone() }),
    }
}

/// Second step of a call: take what the transport made of the request.
///
/// A transport failure and a status code that stands for an error end the
/// call with that error. Otherwise the body is read as text and decoded; a
/// body that decodes is stored under the URL and its value returned, one
/// that does not ends the call with `DeserializationError`. The cache
/// changes only when a value is returned.
pub fn fetched_resp<T, D>(
    cache: &mut Cache,
    region: Region,
    d: &RequestDescriptor,
    outcome: TransportOutcome,
    decode: D,
) -> (r: Result<T, ClientError>)
    where D: FnOnce(&str) -> Option<T>
    requires
        forall|s: &str| call_requires(decode, (s,)),
    ensures
        second_step(region, outcome, decode, r),
        final(cache)@ == after_fetch(old(cache)@, region, *d, outcome, r is Ok),
{
    match outcome {
        TransportOutcome::Failed { fault } => Err(ClientError::TransportError { fault }),
        TransportOutcome::Response { status, body } => {
            match ClientError::check_status(region, status) {
                Err(e) => Err(e),
                Ok(()) => {
                    let text = read_body(body.as_slice());
                    let s = text.as_str();
                    let parsed = decode(s);
                    assert(call_ensures(decode, (s,), parsed));
                    match parsed {
                        Some(value) => {
                            cache.insert(d.url.clone(), text);
                            Ok(value)
                        },
                        None => Err(ClientError::DeserializationError),
                    }
                },
            }
        },
    }
}

/// Idempotent cache hit. Once a fetch was accepted and its body decoded, the
/// cache holds the fetched text under the descriptor's URL: a second call
/// with the same descriptor is served from it, sends no request, and decodes
/// the very text that the first call decoded.
pub proof fn lemma_fetched_is_cached(
    cache: Map<Seq<char>, Seq<char>>,
    region: Region,
    d: RequestDescriptor,
    outcome: TransportOutcome,
)
    requires
        rejection(region, outcome) is None,
    ensures
        cached_text(after_fetch(cache, region, d, outcome, true), d) == Some(body_text(outcome)),
{
}

/// The second call returns what the first returned. Where a fetch ended in
/// a value, the first step of a later call with the same descriptor, on the
/// cache as that fetch left it, is over at once with that same value; it
/// names no request to send. This holds of decoders that agree.
pub proof fn lemma_second_call_agrees<T, D1: FnOnce(&str) -> Option<T>, D2: FnOnce(&str) -> Option<T>>(
    cache: Map<Seq<char>, Seq<char>>,
    region: Region,
    d: RequestDescriptor,
    outcome: TransportOutcome,
    decode1: D1,
    decode2: D2,
    fetched: Result<T, ClientError>,
    again: Step<T>,
)
    requires
        agree::<T, D1, D2>(decode1, decode2),
        second_step(region, outcome, decode1, fetched),
        fetched is Ok,
        first_step(after_fetch(cache, region, d, outcome, true), d, decode2, again),
    ensures
        again == Step::Done(fetched),
{
    lemma_fetched_is_cached(cache, region, d, outcome);
}

/// No caching on failure. A fetch that ends in an error, be it the
/// transport's, a status code's or the decoder's, leaves the cache as it
/// was; a URL that had no entry has none afterwards, so the next call with
/// the same descriptor sends its request again.
pub proof fn lemma_failure_is_not_cached(
    cache: Map<Seq<char>, Seq<char>>,
    region: Region,
    d: RequestDescriptor,
    outcome: TransportOutcome,
    decoded: bool,
)
    requires
        rejection(region, outcome) is Some || !decoded,
    ensures
        after_fetch(cache, region, d, outcome, decoded) == cache,
        cached_text(cache, d) is None ==> cached_text(
            after_fetch(cache, region, d, outcome, decoded),
            d,
        ) is None,
{
}

/// A response with status 404 is rejected as `DataNotFound` whatever its
/// body, and nothing is cached for it.
pub proof fn lemma_not_found_is_not_cached(
    cache: Map<Seq<char>, Seq<char>>,
    region: Region,
    d: RequestDescriptor,
    body: Vec<u8>,
    decoded: bool,
)
    ensures
        rejection(region, TransportOutcome::Response { status: 404, body }) == Some(
            ClientError::DataNotFound,
        ),
        after_fetch(cache, region, d, TransportOutcome::Response { status: 404, body }, decoded)
            == cache,
{
}

/// A response with status 503 is rejected as `ServiceUnavailable` for the
/// region asked, and nothing is cached for it.
pub proof fn lemma_unavailable_names_region(
    cache: Map<Seq<char>, Seq<char>>,
    region: Region,
    d: RequestDescriptor,
    body: Vec<u8>,
    decoded: bool,
)
    ensures
        rejection(region, TransportOutcome::Response { status: 503, body }) == Some(
            ClientError::ServiceUnavailable { region },
        ),
        after_fetch(cache, region, d, TransportOutcome::Response { status: 503, body }, decoded)
            == cache,
{
}

/// Auth header gating. The request of a descriptor carries the
/// `X-Riot-Token` header exactly when the descriptor carries a key, with
/// that key as its value, and it carries no other header.
pub proof fn lemma_auth_header_gating(d: RequestDescriptor, name: Seq<char>)
    ensures
        request_for(d).url == d.url,
        request_for(d).header_value(name) == if name == OutboundRequest::auth_header() {
            match d.auth {
                Some(key) => Some(key@),
                None => None,
            }
        } else {
            None
        },
{
}

/// The cache key is the URL. Two descriptors with the same URL are one
/// cache entry, whatever their API keys: they are served alike and a fetch
/// for either stores the same.
pub proof fn lemma_key_ignores_auth(
    cache: Map<Seq<char>, Seq<char>>,
    region: Region,
    d1: RequestDescriptor,
    d2: RequestDescriptor,
    outcome: TransportOutcome,
    decoded: bool,
)
    requires
        d1.url@ == d2.url@,
    ensures
        cached_text(cache, d1) == cached_text(cache, d2),
        after_fetch(cache, region, d1, outcome, decoded) == after_fetch(
            cache,
            region,
            d2,
            outcome,
            decoded,
        ),
{
}

/// Cache key distinctness. Descriptors whose URLs differ anywhere, be it
/// only in the query string, are distinct entries: a fetch for one leaves
/// what the cache holds for the other, and after a fetch for each the cache
/// holds each one's own text.
pub proof fn lemma_distinct_urls_distinct_entries(
    cache: Map<Seq<char>, Seq<char>>,
    region: Region,
    d1: RequestDescriptor,
    d2: RequestDescriptor,
    outcome1: TransportOutcome,
    outcome2: TransportOutcome,
    decoded: bool,
)
    requires
        d1.url@ != d2.url@,
    ensures
        cached_text(after_fetch(cache, region, d1, outcome1, decoded), d2) == cached_text(
            cache,
            d2,
        ),
        rejection(region, outcome1) is None && rejection(region, outcome2) is None ==> {
            let both = after_fetch(
                after_fetch(cache, region, d1, outcome1, true),
                region,
                d2,
                outcome2,
                true,
            );
            &&& cached_text(both, d1) == Some(body_text(outcome1))
            &&& cached_text(both, d2) == Some(body_text(outcome2))
        },
{
}

/// Insertion is idempotent: to take in the same fetch twice is to take it
/// in once.
pub proof fn lemma_refetch_is_harmless(
    cache: Map<Seq<char>, Seq<char>>,
    region: Region,
    d: RequestDescriptor,
    outcome: TransportOutcome,
    decoded: bool,
)
    ensures
        after_fetch(after_fetch(cache, region, d, outcome, decoded), region, d, outcome, decoded)
            == after_fetch(cache, region, d, outcome, decoded),
{
    assert(after_fetch(
        after_fetch(cache, region, d, outcome, decoded),
        region,
        d,
        outcome,
        decoded,
    ) =~= after_fetch(cache, region, d, outcome, decoded));
}

} // verus!
