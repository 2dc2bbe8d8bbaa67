//! What the HTTP observability layer decides for each request: which request
//! id it carries, which route and status it is recorded under, which metric
//! attributes it gets, whether it counts as an error, and how long it took in
//! whole milliseconds. Also where the OTLP exporters send each signal and how
//! console logs are formatted.
use vstd::prelude::*;
use crate::text::{
    hex_fixed, is_lower_hex_char, lemma_hex_fixed_injective, lemma_hex_fixed_len, lemma_pow16_16, pow16,
    push_hex_fixed, same_text, trim_end_char, trim_end_matching,
};

verus! {

/// The longest incoming `x-request-id` header, in bytes, that is reused as is.
pub const MAX_REQUEST_ID_LEN: usize = 128;

/// Whether an HTTP status code is in the server-error class (500 to 599).
pub open spec fn spec_is_server_error(status: u16) -> bool {
    500 <= status && status < 600
}

/// The request id generated from a sequence number: 16 lowercase hex digits.
pub open spec fn spec_request_id(sequence: u64) -> Seq<char> {
    hex_fixed(sequence as nat, 16)
}

/// The id an incoming request is known by: its `x-request-id` header, when
/// present and at most 128 bytes long. Otherwise `None`, and a fresh id is
/// generated with [`next_request_id`].
pub fn incoming_request_id(header: Option<&str>) -> (r: Option<String>)
    ensures
        match header {
            Some(h) => if h.len() <= MAX_REQUEST_ID_LEN {
                r matches Some(id) && id@ == h@
            } else {
                r is None
            },
            None => r is None,
        },
{
    match header {
        Some(h) => {
            if h.len() <= MAX_REQUEST_ID_LEN {
                Some(h.to_owned())
            } else {
                None
            }
        },
        None => None,
    }
}

/// The request id for the `sequence`-th generated id: `sequence` as 16
/// zero-padded lowercase hexadecimal digits.
pub fn next_request_id(sequence: u64) -> (r: String)
    ensures
        r@ == spec_request_id(sequence),
{
    let mut out = String::new();
    push_hex_fixed(&mut out, sequence, 16);
    assert(out@ =~= spec_request_id(sequence));
    out
}

/// Generated request ids are 16 characters long and consist of lowercase
/// hexadecimal digits only, so they are always valid header values.
pub proof fn request_id_shape(sequence: u64)
    ensures
        spec_request_id(sequence).len() == 16,
        forall|i: int|
            0 <= i < 16 ==> is_lower_hex_char(#[trigger] spec_request_id(sequence)[i]),
{
    lemma_hex_fixed_len(sequence as nat, 16);
}

/// Different sequence numbers give different request ids.
pub proof fn request_ids_are_distinct(a: u64, b: u64)
    requires
        a != b,
    ensures
        spec_request_id(a) != spec_request_id(b),
{
    if spec_request_id(a) == spec_request_id(b) {
        lemma_hex_fixed_injective(a as nat, b as nat, 16);
        lemma_pow16_16();
        assert(a as nat % pow16(16) == a);
        assert(b as nat % pow16(16) == b);
    }
}

/// Whole milliseconds in a duration of `secs` seconds and `subsec_nanos`
/// nanoseconds.
pub open spec fn spec_total_millis(secs: u64, subsec_nanos: u32) -> int {
    secs * 1000 + subsec_nanos / 1_000_000
}

/// Whole milliseconds of a duration, saturated at `u64::MAX`.
pub open spec fn spec_duration_millis(secs: u64, subsec_nanos: u32) -> int {
    if spec_total_millis(secs, subsec_nanos) <= u64::MAX {
        spec_total_millis(secs, subsec_nanos)
    } else {
        u64::MAX as int
    }
}

/// The whole milliseconds of the duration `secs` s + `subsec_nanos` ns, or
/// `u64::MAX` when that does not fit in a `u64`.
pub fn duration_millis(secs: u64, subsec_nanos: u32) -> (r: u64)
    requires
        subsec_nanos < 1_000_000_000,
    ensures
        r == spec_duration_millis(secs, subsec_nanos),
{
    let total: u128 = (secs as u128) * 1000 + (subsec_nanos / 1_000_000) as u128;
    if total <= u64::MAX as u128 {
        total as u64
    } else {
        u64::MAX
    }
}

/// A longer duration never reports fewer milliseconds.
pub proof fn duration_millis_is_monotone(s1: u64, n1: u32, s2: u64, n2: u32)
    requires
        n1 < 1_000_000_000,
        n2 < 1_000_000_000,
        s1 < s2 || (s1 == s2 && n1 <= n2),
    ensures
        spec_duration_millis(s1, n1) <= spec_duration_millis(s2, n2),
{
    assert(n1 / 1_000_000 < 1000);
    if s1 == s2 {
        assert(n1 / 1_000_000 <= n2 / 1_000_000) by (nonlinear_arith)
            requires n1 <= n2;
    } else {
        assert(s1 * 1000 + 1000 <= s2 * 1000) by (nonlinear_arith)
            requires s1 < s2;
    }
}

/// The value of a metric attribute.
pub enum AttributeValue {
    Text(String),
    Integer(i64),
}

/// A metric attribute: a key and its value.
pub struct Attribute {
    pub key: String,
    pub value: AttributeValue,
}

impl Attribute {
    pub open spec fn has_text(self, key: Seq<char>, value: Seq<char>) -> bool {
        &&& self.key@ == key
        &&& self.value matches AttributeValue::Text(v) && v@ == value
    }

    pub open spec fn has_integer(self, key: Seq<char>, value: int) -> bool {
        &&& self.key@ == key
        &&& self.value matches AttributeValue::Integer(v) && v == value
    }
}

/// The attributes that every request metric is recorded with.
pub open spec fn attributes_describe(
    attributes: Seq<Attribute>,
    method: Seq<char>,
    route: Seq<char>,
    status: u16,
) -> bool {
    &&& attributes.len() == 3
    &&& attributes[0].has_text("http.request.method"@, method)
    &&& attributes[1].has_text("http.route"@, route)
    &&& attributes[2].has_integer("http.response.status_code"@, status as int)
}

/// The metric attributes of a request: its method, route and response status.
pub fn request_attributes(method: &str, route: &str, status: u16) -> (r: Vec<Attribute>)
    ensures
        attributes_describe(r@, method@, route@, status),
{
    let mut r: Vec<Attribute> = Vec::new();
    r.push(
        Attribute {
            key: String::from_str("http.request.method"),
            value: AttributeValue::Text(method.to_owned()),
        },
    );
    r.push(
        Attribute {
            key: String::from_str("http.route"),
            value: AttributeValue::Text(route.to_owned()),
        },
    );
    r.push(
        Attribute {
            key: String::from_str("http.response.status_code"),
            value: AttributeValue::Integer(status as i64),
        },
    );
    r
}

/// How one finished request is recorded.
pub struct RequestOutcome {
    /// The route pattern the request matched, or `unmatched`.
    pub route: String,
    /// The response status.
    pub status: u16,
    /// The attributes of the request count and duration metrics.
    pub attributes: Vec<Attribute>,
    /// Whether the request also counts as an error.
    pub counts_as_error: bool,
}

/// The route recorded for a request: the matched route pattern, or `unmatched`.
pub open spec fn spec_recorded_route(route: Option<Seq<char>>) -> Seq<char> {
    match route {
        Some(r) => r,
        None => "unmatched"@,
    }
}

/// How a request that produced a response is recorded: under its matched
/// route (or `unmatched`) and status, and as an error when the status is a
/// server error.
pub fn completed_request(method: &str, route: Option<&str>, status: u16) -> (r: RequestOutcome)
    ensures
        r.route@ == spec_recorded_route(
            match route {
                Some(p) => Some(p@),
                None => None,
            },
        ),
        r.status == status,
        attributes_describe(r.attributes@, method@, r.route@, status),
        r.counts_as_error == spec_is_server_error(status),
{
    let recorded: &str = match route {
        Some(p) => p,
        None => "unmatched",
    };
    let attributes = request_attributes(method, recorded, status);
    RequestOutcome {
        route: recorded.to_owned(),
        status,
        attributes,
        counts_as_error: 500 <= status && status < 600,
    }
}

/// How a request whose handler failed is recorded: under route `unmatched`
/// and the error's status, and as an error when that status is a server
/// error (the error metric counts requests completed with a 5xx status).
pub fn failed_request(method: &str, status: u16) -> (r: RequestOutcome)
    ensures
        r.route@ == "unmatched"@,
        r.status == status,
        attributes_describe(r.attributes@, method@, "unmatched"@, status),
        r.counts_as_error == spec_is_server_error(status),
{
    let attributes = request_attributes(method, "unmatched", status);
    RequestOutcome {
        route: String::from_str("unmatched"),
        status,
        attributes,
        counts_as_error: 500 <= status && status < 600,
    }
}

/// The OTLP endpoint of one signal under a base endpoint.
pub open spec fn spec_signal_endpoint(base: Seq<char>, signal: Seq<char>) -> Seq<char> {
    trim_end_char(base, '/') + "/v1/"@ + signal
}

/// The OTLP/HTTP endpoint of `signal` (such as `traces` or `metrics`) under
/// `base_endpoint`: the base without its trailing slashes, then `/v1/` and
/// the signal's name.
pub fn signal_endpoint(base_endpoint: &str, signal: &str) -> (r: String)
    ensures
        r@ == spec_signal_endpoint(base_endpoint@, signal@),
{
    let base = trim_end_matching(base_endpoint, '/');
    let mut r = String::from_str(base);
    r.append("/v1/");
    r.append(signal);
    r
}

/// Trailing slashes on the base endpoint make no difference.
pub proof fn signal_endpoint_ignores_trailing_slash(base: Seq<char>, signal: Seq<char>)
    ensures
        spec_signal_endpoint(base.push('/'), signal) == spec_signal_endpoint(base, signal),
        trim_end_char(base, '/').len() > 0 ==> trim_end_char(base, '/').last() != '/',
{
    assert(base.push('/').drop_last() =~= base);
    lemma_trim_end_char_last(base, '/');
}

proof fn lemma_trim_end_char_last(s: Seq<char>, c: char)
    ensures
        trim_end_char(s, c).len() > 0 ==> trim_end_char(s, c).last() != c,
    decreases s.len(),
{
    if s.len() > 0 && s.last() == c {
        lemma_trim_end_char_last(s.drop_last(), c);
    }
}

/// How console logs are written.
#[derive(PartialEq, Eq, Structural, Debug, Clone, Copy)]
pub enum ConsoleFormat {
    /// Compact, colored, human-oriented lines (local development).
    Compact,
    /// One JSON object per event, with the current span.
    Json,
}

impl ConsoleFormat {
    /// Compact lines in the `local` deployment environment, JSON elsewhere.
    pub fn for_environment(deployment_environment: &str) -> (r: ConsoleFormat)
        ensures
            (r == ConsoleFormat::Compact) <==> deployment_environment@ == "local"@,
    {
        if same_text(deployment_environment, "local") {
            ConsoleFormat::Compact
        } else {
            ConsoleFormat::Json
        }
    }
}

/// Whether a callsite is an event rather than a span; console output shows
/// events only.
pub fn is_event(metadata: &tracing::Metadata<'_>) -> bool {
    metadata.is_event()
}

#[verifier::external_type_specification]
#[verifier::external_body]
pub struct ExMetadata<'a>(tracing::Metadata<'a>);

/// `tracing::Metadata::is_event`: whether the callsite's kind has the event
/// bit. The kind is private to `tracing`, so nothing is stated of the result.
pub assume_specification<'a>[ tracing::Metadata::<'a>::is_event ](
    metadata: &tracing::Metadata<'a>,
) -> bool;

} // verus!
