//! Redacted transport errors and the classification of Graph API error
//! responses.
use vstd::prelude::*;

use crate::text::{append_decimal_i64, append_decimal_u64, decimal, parse_u64, parsed_u64};
use crate::values::{valid_external_id, MetaExternalId};

verus! {

/// Safe provider transport failure category.
#[derive(Clone, Copy, Debug, PartialEq, Eq, Structural)]
pub enum MetaTransportErrorKind {
    /// Token is missing, expired, or lacks required scopes.
    Authentication,
    /// Provider rejected the call because a quota is exhausted.
    RateLimited,
    /// Provider returned a deterministic request rejection.
    Rejected,
    /// Transport or provider failure that may be transient.
    Transient,
    /// A successful response could not be interpreted safely.
    InvalidResponse,
}

/// Redacted transport error returned by Meta HTTP implementations.
#[derive(Clone, Debug, PartialEq, Eq)]
pub struct MetaTransportError {
    /// Stable category used by stage-aware adapter mapping.
    pub kind: MetaTransportErrorKind,
    /// Safe stable code without raw provider content.
    pub code: String,
    /// Optional retry guidance from the provider.
    pub retry_after_seconds: Option<u64>,
}

/// Mathematical view of [`MetaTransportError`].
pub struct TransportErrorView {
    pub kind: MetaTransportErrorKind,
    pub code: Seq<char>,
    pub retry_after_seconds: Option<u64>,
}

impl View for MetaTransportError {
    type V = TransportErrorView;

    open spec fn view(&self) -> TransportErrorView {
        TransportErrorView {
            kind: self.kind,
            code: self.code@,
            retry_after_seconds: self.retry_after_seconds,
        }
    }
}

impl MetaTransportError {
    /// Creates a redacted transport error.
    pub fn new(kind: MetaTransportErrorKind, code: &str) -> (r: Self)
        ensures
            r@ == (TransportErrorView { kind, code: code@, retry_after_seconds: None }),
    {
        MetaTransportError { kind, code: String::from_str(code), retry_after_seconds: None }
    }

    /// Adds provider retry guidance.
    pub fn with_retry_after(self, seconds: u64) -> (r: Self)
        ensures
            r@ == (TransportErrorView { retry_after_seconds: Some(seconds), ..self@ }),
    {
        let mut error = self;
        error.retry_after_seconds = Some(seconds);
        error
    }
}

/// The fields of a Graph API `error` object that classification reads.
#[derive(Clone, Copy, Debug, PartialEq, Eq, Structural)]
pub struct GraphError {
    /// `error.code`.
    pub code: Option<i64>,
    /// `error.error_subcode`.
    pub error_subcode: Option<i64>,
    /// `error.is_transient`, false when absent.
    pub is_transient: bool,
}

/// The error object used when a body holds none: no code, no subcode, not transient.
pub open spec fn graph_error_or_default(graph: Option<GraphError>) -> GraphError {
    match graph {
        Some(g) => g,
        None => GraphError { code: None, error_subcode: None, is_transient: false },
    }
}

/// `code` is one of Meta's throttling codes.
pub open spec fn is_rate_limit_code(code: Option<i64>) -> bool {
    code matches Some(c) && (c == 4 || c == 17 || c == 32 || c == 613)
}

/// Category of a Graph error response: authentication (HTTP 401/403 or code
/// 190) takes precedence over rate limiting (HTTP 429 or a throttling code),
/// which takes precedence over transient failures (HTTP 5xx or
/// `is_transient`); everything else is a deterministic rejection.
pub open spec fn graph_error_kind(status: u16, g: GraphError) -> MetaTransportErrorKind {
    if status == 401 || status == 403 || g.code == Some(190i64) {
        MetaTransportErrorKind::Authentication
    } else if status == 429 || is_rate_limit_code(g.code) {
        MetaTransportErrorKind::RateLimited
    } else if (500 <= status && status <= 599) || g.is_transient {
        MetaTransportErrorKind::Transient
    } else {
        MetaTransportErrorKind::Rejected
    }
}

/// Stable error code: `{provider}.api.{code}[.{subcode}]` when the body names
/// a Graph code, `{provider}.http.{status}` otherwise.
pub open spec fn graph_error_code(provider: Seq<char>, status: u16, g: GraphError) -> Seq<char> {
    match g.code {
        Some(code) => match g.error_subcode {
            Some(subcode) => provider + ".api."@ + decimal(code as int) + "."@ + decimal(
                subcode as int,
            ),
            None => provider + ".api."@ + decimal(code as int),
        },
        None => provider + ".http."@ + decimal(status as int),
    }
}

/// The transport error a Graph error response is classified as.
pub open spec fn classified_graph_error(
    provider: Seq<char>,
    status: u16,
    graph: Option<GraphError>,
    retry_after_seconds: Option<u64>,
) -> TransportErrorView {
    let g = graph_error_or_default(graph);
    TransportErrorView {
        kind: graph_error_kind(status, g),
        code: graph_error_code(provider, status, g),
        retry_after_seconds,
    }
}

/// Classifies an unsuccessful Graph response without keeping any upstream
/// message text. `graph` is the body's `error` object, `None` when the body
/// is not an error envelope.
pub fn classify_graph_error(
    provider: &str,
    status: u16,
    graph: Option<GraphError>,
    retry_after_seconds: Option<u64>,
) -> (r: MetaTransportError)
    ensures
        r@ == classified_graph_error(provider@, status, graph, retry_after_seconds),
{
    let g = match graph {
        Some(g) => g,
        None => GraphError { code: None, error_subcode: None, is_transient: false },
    };
    let kind = if status == 401 || status == 403 || g.code == Some(190i64) {
        MetaTransportErrorKind::Authentication
    } else if status == 429 || match g.code {
        Some(c) => c == 4 || c == 17 || c == 32 || c == 613,
        None => false,
    } {
        MetaTransportErrorKind::RateLimited
    } else if (500 <= status && status <= 599) || g.is_transient {
        MetaTransportErrorKind::Transient
    } else {
        MetaTransportErrorKind::Rejected
    };
    let mut code = String::from_str(provider);
    match g.code {
        Some(c) => {
            code.append(".api.");
            append_decimal_i64(&mut code, c);
            match g.error_subcode {
                Some(sub) => {
                    code.append(".");
                    append_decimal_i64(&mut code, sub);
                },
                None => {},
            }
        },
        None => {
            code.append(".http.");
            append_decimal_u64(&mut code, status as u64);
            proof {
                assert(decimal(status as int) == crate::text::decimal_digits(status as nat));
            }
        },
    }
    let error = MetaTransportError { kind, code, retry_after_seconds: None };
    match retry_after_seconds {
        Some(seconds) => error.with_retry_after(seconds),
        None => error,
    }
}

/// The seconds a `Retry-After` header value asks for, when it is a plain
/// unsigned decimal number (what `str::parse::<u64>` accepts).
pub fn retry_after_from_header(value: Option<&str>) -> (r: Option<u64>)
    ensures
        r == match value {
            Some(v) => parsed_u64(v@),
            None => None,
        },
{
    match value {
        Some(v) => parse_u64(v),
        None => None,
    }
}

/// A response body that was read, with its JSON already decoded into the
/// fields this module decides on.
pub struct IdResponseBody {
    /// `id` of a body that decodes as `{"id": <string>}`; `None` when it does not.
    pub id: Option<String>,
    /// `error` of a body that decodes as a Graph error envelope; `None` otherwise.
    pub graph: Option<GraphError>,
}

/// The outcome of a response that carries one object identifier: an
/// unreadable body is an invalid response; a 2xx status needs a decodable,
/// valid identifier; any other status is classified as a Graph error.
pub open spec fn id_response_outcome(
    provider: Seq<char>,
    status: u16,
    retry_after_header: Option<Seq<char>>,
    body: Option<(Option<Seq<char>>, Option<GraphError>)>,
) -> Result<Seq<char>, TransportErrorView> {
    match body {
        None => Err(
            TransportErrorView {
                kind: MetaTransportErrorKind::InvalidResponse,
                code: provider + ".response.unreadable"@,
                retry_after_seconds: None,
            },
        ),
        Some((id, graph)) => if 200 <= status && status <= 299 {
            match id {
                None => Err(
                    TransportErrorView {
                        kind: MetaTransportErrorKind::InvalidResponse,
                        code: provider + ".response.invalid_json"@,
                        retry_after_seconds: None,
                    },
                ),
                Some(id) => if valid_external_id(id) {
                    Ok(id)
                } else {
                    Err(
                        TransportErrorView {
                            kind: MetaTransportErrorKind::InvalidResponse,
                            code: provider + ".response.invalid_id"@,
                            retry_after_seconds: None,
                        },
                    )
                },
            }
        } else {
            Err(
                classified_graph_error(
                    provider,
                    status,
                    graph,
                    match retry_after_header {
                        Some(v) => parsed_u64(v),
                        None => None,
                    },
                ),
            )
        },
    }
}

/// The view of an optional header value.
pub open spec fn header_view(value: Option<&str>) -> Option<Seq<char>> {
    match value {
        Some(v) => Some(v@),
        None => None,
    }
}

/// The view of an optional read body.
pub open spec fn id_body_view(body: Option<&IdResponseBody>) -> Option<
    (Option<Seq<char>>, Option<GraphError>),
> {
    match body {
        Some(b) => Some(
            (
                match b.id {
                    Some(id) => Some(id@),
                    None => None,
                },
                b.graph,
            ),
        ),
        None => None,
    }
}

/// Interprets a Graph response that should carry one object identifier.
/// `body` is `None` when the body could not be read.
pub fn interpret_id_response(
    provider: &str,
    status: u16,
    retry_after_header: Option<&str>,
    body: Option<&IdResponseBody>,
) -> (r: Result<MetaExternalId, MetaTransportError>)
    ensures
        match (r, id_response_outcome(provider@, status, header_view(retry_after_header), id_body_view(body))) {
            (Ok(id), Ok(expected)) => id@ == expected,
            (Err(e), Err(expected)) => e@ == expected,
            _ => false,
        },
{
    let retry_after = retry_after_from_header(retry_after_header);
    let body = match body {
        Some(b) => b,
        None => {
            let mut code = String::from_str(provider);
            code.append(".response.unreadable");
            return Err(MetaTransportError { kind: MetaTransportErrorKind::InvalidResponse, code, retry_after_seconds: None });
        },
    };
    if 200 <= status && status <= 299 {
        let id = match &body.id {
            Some(id) => id,
            None => {
                let mut code = String::from_str(provider);
                code.append(".response.invalid_json");
                return Err(MetaTransportError { kind: MetaTransportErrorKind::InvalidResponse, code, retry_after_seconds: None });
            },
        };
        match MetaExternalId::new(id.as_str()) {
            Ok(id) => Ok(id),
            Err(_) => {
                let mut code = String::from_str(provider);
                code.append(".response.invalid_id");
                Err(MetaTransportError { kind: MetaTransportErrorKind::InvalidResponse, code, retry_after_seconds: None })
            },
        }
    } else {
        Err(classify_graph_error(provider, status, body.graph, retry_after))
    }
}

/// Law: a 5xx answer that is neither an authentication failure (HTTP 401/403
/// or code 190) nor throttling (HTTP 429 or codes 4, 17, 32, 613) is
/// transient, whatever else the body says; an answer is a deterministic
/// rejection only when it is none of authentication, throttling, 5xx or
/// flagged transient.
pub proof fn lemma_server_errors_are_transient(
    provider: Seq<char>,
    status: u16,
    graph: Option<GraphError>,
    retry_after_seconds: Option<u64>,
)
    ensures
        ({
            let code = match graph {
                Some(g) => g.code,
                None => None,
            };
            let transient_flag = match graph {
                Some(g) => g.is_transient,
                None => false,
            };
            let auth = status == 401 || status == 403 || code == Some(190i64);
            let throttled = status == 429 || code == Some(4i64) || code == Some(17i64) || code
                == Some(32i64) || code == Some(613i64);
            let kind = classified_graph_error(provider, status, graph, retry_after_seconds).kind;
            &&& auth ==> kind == MetaTransportErrorKind::Authentication
            &&& !auth && throttled ==> kind == MetaTransportErrorKind::RateLimited
            &&& !auth && !throttled && 500 <= status && status <= 599 ==> kind
                == MetaTransportErrorKind::Transient
            &&& !auth && !throttled && transient_flag ==> kind == MetaTransportErrorKind::Transient
            &&& kind == MetaTransportErrorKind::Rejected <==> (!auth && !throttled && !(500
                <= status && status <= 599) && !transient_flag)
            &&& kind != MetaTransportErrorKind::InvalidResponse
        }),
{
}

/// Law: a non-2xx answer with a readable body is classified from that body's
/// Graph error object and the `Retry-After` value; in particular an answer
/// naming code 190 is an authentication failure and one naming a throttling
/// code is rate limited, whatever the HTTP status.
pub proof fn lemma_failed_id_responses_classify_the_body(
    provider: Seq<char>,
    status: u16,
    retry_after_header: Option<Seq<char>>,
    id: Option<Seq<char>>,
    graph: Option<GraphError>,
)
    requires
        !(200 <= status && status <= 299),
    ensures
        id_response_outcome(provider, status, retry_after_header, Some((id, graph))) == Err::<
            Seq<char>,
            TransportErrorView,
        >(
            classified_graph_error(
                provider,
                status,
                graph,
                match retry_after_header {
                    Some(v) => parsed_u64(v),
                    None => None,
                },
            ),
        ),
        (graph matches Some(g) && g.code == Some(190i64)) ==> (id_response_outcome(
            provider,
            status,
            retry_after_header,
            Some((id, graph)),
        ) matches Err(e) && e.kind == MetaTransportErrorKind::Authentication),
{
}


/// Law: classification keeps the caller's retry guidance unchanged, names the
/// Graph code (and subcode) in the stable code when the body has one, and
/// names the HTTP status otherwise; the code always starts with the provider.
pub proof fn lemma_error_codes_name_their_source(
    provider: Seq<char>,
    status: u16,
    graph: Option<GraphError>,
    retry_after_seconds: Option<u64>,
)
    ensures
        ({
            let e = classified_graph_error(provider, status, graph, retry_after_seconds);
            &&& e.retry_after_seconds == retry_after_seconds
            &&& provider.is_prefix_of(e.code)
            &&& (graph matches Some(g) && g.code is Some) ==> (e.code == provider + ".api."@
                + decimal(graph->0.code->0 as int) + match graph->0.error_subcode {
                Some(sub) => "."@ + decimal(sub as int),
                None => Seq::<char>::empty(),
            })
            &&& !(graph matches Some(g) && g.code is Some) ==> e.code == provider + ".http."@
                + decimal(status as int)
        }),
{
    let g = graph_error_or_default(graph);
    let e = classified_graph_error(provider, status, graph, retry_after_seconds);
    match g.code {
        Some(c) => match g.error_subcode {
            Some(sub) => {
                assert(e.code == provider + (".api."@ + decimal(c as int) + "."@ + decimal(
                    sub as int,
                )));
                assert(provider + ".api."@ + decimal(c as int) + ("."@ + decimal(sub as int))
                    =~= provider + ".api."@ + decimal(c as int) + "."@ + decimal(sub as int));
            },
            None => {
                assert(e.code == provider + (".api."@ + decimal(c as int)));
                assert(provider + ".api."@ + decimal(c as int) + Seq::<char>::empty()
                    =~= provider + ".api."@ + decimal(c as int));
            },
        },
        None => {
            assert(e.code == provider + (".http."@ + decimal(status as int)));
        },
    }
    assert(provider.is_prefix_of(e.code)) by {
        assert(e.code.subrange(0, provider.len() as int) =~= provider);
    }
}

} // verus!
