//! The certificate lookup: the request to send, and what an answer means.

use vstd::prelude::*;
use vstd::string::StringExecFns;
use crate::api::{ApiError, ApiErrorView, ApiResult, DataEnvelope, ErrorEnvelope};
use crate::cert::{certificate_shape, CertView, CycleCert};
use crate::config::{Config, ConfigView};
use crate::json::{json_document, JsonTree, JsonValue};

verus! {

/// The most bytes of an answer that an error keeps.
pub const EXCERPT_LIMIT: usize = 256;

/// Why a lookup gave no certificate.
#[derive(Debug, PartialEq, Eq)]
pub enum FetchError {
    /// The request got no answer. Holds what the transport said.
    Transport(String),
    /// The answer is no JSON document, or one of neither shape. Holds the
    /// start of the answer, cut off before any private key.
    MalformedResponse(Vec<u8>),
    /// The API answered with an error.
    Remote { title: String, detail: String },
}

/// What a `FetchError` holds.
pub enum FetchErrorView {
    Transport(Seq<char>),
    MalformedResponse(Seq<u8>),
    Remote { title: Seq<char>, detail: Seq<char> },
}

impl View for FetchError {
    type V = FetchErrorView;

    open spec fn view(&self) -> FetchErrorView {
        match self {
            FetchError::Transport(reason) => FetchErrorView::Transport(reason@),
            FetchError::MalformedResponse(start) => FetchErrorView::MalformedResponse(start@),
            FetchError::Remote { title, detail } => FetchErrorView::Remote {
                title: title@,
                detail: detail@,
            },
        }
    }
}

impl FetchErrorView {
    /// The message for the log. For an error of the API it is the title,
    /// three dots and the detail.
    pub open spec fn text(self) -> Seq<char> {
        match self {
            FetchErrorView::Transport(reason) => reason,
            FetchErrorView::MalformedResponse(_) => "Failed parsing response from Cycle API."@,
            FetchErrorView::Remote { title, detail } => title + "..."@ + detail,
        }
    }
}

impl FetchError {
    /// The message for the log.
    pub fn message(&self) -> (m: String)
        ensures
            m@ == self@.text(),
    {
        match self {
            FetchError::Transport(reason) => reason.clone(),
            FetchError::MalformedResponse(_) => String::from_str(
                "Failed parsing response from Cycle API.",
            ),
            FetchError::Remote { title, detail } => title.clone().concat("...").concat(
                detail.as_str(),
            ),
        }
    }
}

/// The bytes of `private_key`, the name under which an answer holds the key.
pub open spec fn key_marker() -> Seq<u8> {
    seq![112u8, 114u8, 105u8, 118u8, 97u8, 116u8, 101u8, 95u8, 107u8, 101u8, 121u8]
}

/// Whether `needle` stands in `hay` at index `at`.
pub open spec fn occurs_at(hay: Seq<u8>, needle: Seq<u8>, at: int) -> bool {
    0 <= at && at + needle.len() <= hay.len() && hay.subrange(at, at + needle.len()) == needle
}

/// The least index from `from` on at which `needle` stands in `hay`, or the
/// length of `hay` where it stands nowhere from there on.
pub open spec fn first_occurrence(hay: Seq<u8>, needle: Seq<u8>, from: int) -> int
    decreases hay.len() - from,
{
    if from < 0 || from >= hay.len() || from + needle.len() > hay.len() {
        hay.len() as int
    } else if occurs_at(hay, needle, from) {
        from
    } else {
        first_occurrence(hay, needle, from + 1)
    }
}

/// The start of `body` that an error keeps: what comes before the first
/// `private_key`, and no more than `EXCERPT_LIMIT` bytes of it.
pub open spec fn excerpt(body: Seq<u8>) -> Seq<u8> {
    let cut = first_occurrence(body, key_marker(), 0);
    if cut < EXCERPT_LIMIT {
        body.take(cut)
    } else {
        body.take(EXCERPT_LIMIT as int)
    }
}

/// What `first_occurrence` finds is in range, and `needle` stands nowhere
/// between `from` and it.
pub proof fn lemma_first_occurrence(hay: Seq<u8>, needle: Seq<u8>, from: int)
    requires
        0 <= from <= hay.len(),
    ensures
        from <= first_occurrence(hay, needle, from) <= hay.len(),
        forall|at: int|
            from <= at < first_occurrence(hay, needle, from) ==> !occurs_at(hay, needle, at),
        first_occurrence(hay, needle, from) < hay.len() ==> occurs_at(
            hay,
            needle,
            first_occurrence(hay, needle, from),
        ),
    decreases hay.len() - from,
{
    if from >= hay.len() || from + needle.len() > hay.len() {
    } else if occurs_at(hay, needle, from) {
    } else {
        lemma_first_occurrence(hay, needle, from + 1);
    }
}

/// An excerpt is a start of the body, within the limit, and `private_key`
/// stands nowhere in it: so neither does anything that follows that name.
pub proof fn lemma_excerpt_stops_before_key(body: Seq<u8>)
    ensures
        excerpt(body).len() <= EXCERPT_LIMIT,
        excerpt(body).len() <= body.len(),
        excerpt(body) == body.take(excerpt(body).len() as int),
        forall|at: int| !occurs_at(excerpt(body), key_marker(), at),
{
    let marker = key_marker();
    let cut = first_occurrence(body, marker, 0);
    lemma_first_occurrence(body, marker, 0);
    let kept = excerpt(body);
    assert forall|at: int| !occurs_at(kept, marker, at) by {
        if occurs_at(kept, marker, at) {
            assert(kept.subrange(at, at + marker.len()) == body.subrange(at, at + marker.len()));
            assert(occurs_at(body, marker, at));
        }
    }
}

/// Whether `needle` stands in `hay` at index `at`.
fn stands_at(hay: &[u8], needle: &[u8], at: usize) -> (found: bool)
    requires
        at + needle@.len() <= hay@.len(),
    ensures
        found == occurs_at(hay@, needle@, at as int),
{
    let n: usize = hay.len();
    let mut k: usize = 0;
    while k < needle.len()
        invariant
            k <= needle@.len(),
            n == hay@.len(),
            at + needle@.len() <= hay@.len(),
            forall|j: int| 0 <= j < k ==> hay@[at + j] == needle@[j],
        decreases needle.len() - k,
    {
        if hay[at + k] != needle[k] {
            proof {
                let part = hay@.subrange(at as int, at + needle@.len());
                assert(part[k as int] == hay@[at + k]);
            }
            return false;
        }
        k += 1;
    }
    proof {
        assert(hay@.subrange(at as int, at + needle@.len()) =~= needle@);
    }
    true
}

/// The least index at which `needle` stands in `hay`, or the length of
/// `hay`.
fn find_first(hay: &[u8], needle: &[u8]) -> (at: usize)
    ensures
        at == first_occurrence(hay@, needle@, 0),
{
    let mut i: usize = 0;
    while i < hay.len() && needle.len() <= hay.len() - i
        invariant
            i <= hay@.len(),
            first_occurrence(hay@, needle@, 0) == first_occurrence(hay@, needle@, i as int),
        decreases hay.len() - i,
    {
        if stands_at(hay, needle, i) {
            return i;
        }
        i += 1;
    }
    hay.len()
}

/// The start of `body` to keep in an error.
pub fn redacted_excerpt(body: &[u8]) -> (kept: Vec<u8>)
    ensures
        kept@ == excerpt(body@),
{
    let marker: Vec<u8> = vec![
        112u8, 114u8, 105u8, 118u8, 97u8, 116u8, 101u8, 95u8, 107u8, 101u8, 121u8,
    ];
    proof {
        assert(marker@ =~= key_marker());
        lemma_first_occurrence(body@, key_marker(), 0);
    }
    let cut = find_first(body, marker.as_slice());
    let end: usize = if cut < EXCERPT_LIMIT {
        cut
    } else {
        EXCERPT_LIMIT
    };
    let mut kept: Vec<u8> = Vec::new();
    let mut i: usize = 0;
    while i < end
        invariant
            i <= end <= body@.len(),
            kept@ == body@.take(i as int),
        decreases end - i,
    {
        kept.push(body[i]);
        proof {
            assert(kept@ == body@.take(i as int + 1));
        }
        i += 1;
    }
    kept
}

/// The answer that `v` is. The data envelope is tried first: an object
/// whose member `data` describes a certificate. Where `v` is none, the
/// error envelope is tried.
pub open spec fn envelope_shape(v: JsonTree) -> Option<Result<CertView, ApiErrorView>> {
    match data_shape(v) {
        Some(cert) => Some(Ok(cert)),
        None => match ErrorEnvelope::shape(v) {
            Some(error) => Some(Err(error)),
            None => None,
        },
    }
}

/// The data envelope that `v` is.
pub open spec fn data_shape(v: JsonTree) -> Option<CertView> {
    match v.member("data"@) {
        Some(data) => certificate_shape(data),
        None => None,
    }
}

/// What an answer of either kind means for the lookup: the certificate, or
/// the API's error with its title and with its detail, empty where there is
/// none.
pub open spec fn answer_outcome(answer: Result<CertView, ApiErrorView>) -> Result<
    CertView,
    FetchErrorView,
> {
    match answer {
        Ok(cert) => Ok(cert),
        Err(error) => Err(
            FetchErrorView::Remote {
                title: error.title,
                detail: match error.detail {
                    Some(detail) => detail,
                    None => Seq::empty(),
                },
            },
        ),
    }
}

/// What a parsed answer means for the lookup; `start` is what an error keeps
/// of the body.
pub open spec fn document_outcome(doc: Option<JsonTree>, start: Seq<u8>) -> Result<
    CertView,
    FetchErrorView,
> {
    match doc {
        Some(v) => match envelope_shape(v) {
            Some(answer) => answer_outcome(answer),
            None => Err(FetchErrorView::MalformedResponse(start)),
        },
        None => Err(FetchErrorView::MalformedResponse(start)),
    }
}

/// What the body of an answer means for the lookup.
pub open spec fn body_outcome(body: Seq<u8>) -> Result<CertView, FetchErrorView> {
    document_outcome(json_document(body), excerpt(body))
}

/// What the transport's result means for the lookup: `Err` holds what the
/// transport said where the request got no answer.
pub open spec fn fetch_outcome(response: Result<Seq<u8>, Seq<char>>) -> Result<
    CertView,
    FetchErrorView,
> {
    match response {
        Ok(body) => body_outcome(body),
        Err(reason) => Err(FetchErrorView::Transport(reason)),
    }
}

/// Whether `outcome` is `expected`, seen through the views.
pub open spec fn outcome_is(
    outcome: Result<CycleCert, FetchError>,
    expected: Result<CertView, FetchErrorView>,
) -> bool {
    match outcome {
        Ok(cert) => expected == Ok::<CertView, FetchErrorView>(cert@),
        Err(error) => expected == Err::<CertView, FetchErrorView>(error@),
    }
}

/// Reads a data envelope from `v`.
pub fn read_data(v: &JsonValue) -> (envelope: Option<DataEnvelope<CycleCert>>)
    ensures
        match envelope {
            Some(e) => data_shape(v@) == Some(e@),
            None => data_shape(v@) is None,
        },
{
    match v.get("data") {
        Some(data) => match CycleCert::from_json(data) {
            Some(cert) => Some(DataEnvelope { data: cert }),
            None => None,
        },
        None => None,
    }
}

/// Tells the two envelopes apart by their members, the data envelope first.
pub fn read_envelope(v: &JsonValue) -> (answer: Option<ApiResult<CycleCert>>)
    ensures
        match answer {
            Some(a) => envelope_shape(v@) == Some(a@),
            None => envelope_shape(v@) is None,
        },
{
    match read_data(v) {
        Some(envelope) => Some(ApiResult::Data(envelope)),
        None => match ErrorEnvelope::from_json(v) {
            Some(envelope) => Some(ApiResult::Error(envelope)),
            None => None,
        },
    }
}

/// Turns an answer into the lookup's outcome.
pub fn outcome_of_answer(answer: ApiResult<CycleCert>) -> (outcome: Result<CycleCert, FetchError>)
    ensures
        outcome_is(outcome, answer_outcome(answer@)),
        answer matches ApiResult::Data(e) ==> outcome == Ok::<CycleCert, FetchError>(e.data),
{
    match answer {
        ApiResult::Data(envelope) => Ok(envelope.data),
        ApiResult::Error(envelope) => {
            let error: ApiError = envelope.error;
            let detail = match error.detail {
                Some(d) => d,
                None => String::new(),
            };
            Err(FetchError::Remote { title: error.title, detail })
        },
    }
}

/// Turns a parsed answer into the lookup's outcome; `start` goes into the
/// error where the answer is of neither shape.
pub fn outcome_of_document(doc: Option<JsonValue>, start: Vec<u8>) -> (outcome: Result<
    CycleCert,
    FetchError,
>)
    ensures
        outcome_is(
            outcome,
            document_outcome(
                match doc {
                    Some(v) => Some(v@),
                    None => None,
                },
                start@,
            ),
        ),
{
    match doc {
        Some(v) => match read_envelope(&v) {
            Some(answer) => outcome_of_answer(answer),
            None => Err(FetchError::MalformedResponse(start)),
        },
        None => Err(FetchError::MalformedResponse(start)),
    }
}

/// Decodes the body of an answer.
pub fn decode_response(body: &[u8]) -> (outcome: Result<CycleCert, FetchError>)
    ensures
        outcome_is(outcome, body_outcome(body@)),
{
    let doc = JsonValue::parse(body);
    outcome_of_document(doc, redacted_excerpt(body))
}

/// The request that looks a certificate up.
#[derive(Debug, PartialEq, Eq)]
pub struct LookupRequest {
    pub url: String,
    pub headers: Vec<(String, String)>,
    pub query: Vec<(String, String)>,
}

/// What a `LookupRequest` holds.
pub struct LookupRequestView {
    pub url: Seq<char>,
    pub headers: Seq<(Seq<char>, Seq<char>)>,
    pub query: Seq<(Seq<char>, Seq<char>)>,
}

impl View for LookupRequest {
    type V = LookupRequestView;

    open spec fn view(&self) -> LookupRequestView {
        LookupRequestView {
            url: self.url@,
            headers: self.headers.deep_view(),
            query: self.query.deep_view(),
        }
    }
}

/// The request for the certificate of `config`: a GET of the lookup
/// endpoint on the configured core, with the API key as bearer token, the
/// hub in a header of its own, and the domain as query, followed by the
/// wildcard flag where one is asked for.
pub open spec fn lookup_request(config: ConfigView) -> LookupRequestView {
    LookupRequestView {
        url: "https://"@ + config.core + "/v1/dns/tls/certificates/lookup"@,
        headers: seq![
            ("Authorization"@, "Bearer "@ + config.apikey),
            ("X-HUB-ID"@, config.hub),
        ],
        query: if config.wildcard {
            seq![("domain"@, config.domain), ("wildcard"@, "true"@)]
        } else {
            seq![("domain"@, config.domain)]
        },
    }
}

/// Looks certificates up for one set of settings.
pub struct CertificateManager<'a> {
    config: &'a Config,
}

impl<'a> CertificateManager<'a> {
    /// The settings that the manager works with.
    pub closed spec fn settings(&self) -> Config {
        *self.config
    }

    pub fn new(config: &'a Config) -> (manager: Self)
        ensures
            manager.settings() == *config,
    {
        Self { config }
    }

    /// The request to send.
    pub fn lookup_request(&self) -> (request: LookupRequest)
        ensures
            request@ == lookup_request(self.settings()@),
    {
        let url = String::from_str("https://").concat(self.config.core.as_str()).concat(
            "/v1/dns/tls/certificates/lookup",
        );
        let mut headers: Vec<(String, String)> = Vec::new();
        headers.push(
            (
                String::from_str("Authorization"),
                String::from_str("Bearer ").concat(self.config.apikey.as_str()),
            ),
        );
        headers.push((String::from_str("X-HUB-ID"), self.config.hub.clone()));
        let mut query: Vec<(String, String)> = Vec::new();
        query.push((String::from_str("domain"), self.config.domain.clone()));
        if self.config.wildcard {
            query.push((String::from_str("wildcard"), String::from_str("true")));
        }
        let request = LookupRequest { url, headers, query };
        proof {
            let expected = lookup_request(self.settings()@);
            assert(request.headers.deep_view() =~= expected.headers);
            assert(request.query.deep_view() =~= expected.query);
        }
        request
    }

    /// The certificate that the transport's result holds: `response` is the
    /// body of the answer, or what the transport said where the request got
    /// none.
    pub fn fetch_certificate(&self, response: Result<Vec<u8>, String>) -> (outcome: Result<
        CycleCert,
        FetchError,
    >)
        ensures
            outcome_is(
                outcome,
                fetch_outcome(
                    match response {
                        Ok(body) => Ok(body@),
                        Err(reason) => Err(reason@),
                    },
                ),
            ),
    {
        match response {
            Ok(body) => decode_response(body.as_slice()),
            Err(reason) => Err(FetchError::Transport(reason)),
        }
    }
}

} // verus!
