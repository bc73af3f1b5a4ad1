//! URL handling for Graph API bases, public media URLs and endpoints.
//!
//! URL parsing and path-segment editing are done by the `url` crate (reached
//! through `reqwest::Url`); this module reads the parsed components as plain
//! values and decides on them.
use vstd::prelude::*;

use crate::text::{all_ascii, lemma_ascii_digits_utf8_len, lemma_ascii_utf8_len, utf8_len};
use crate::values::valid_numeric_id;

verus! {

/// The components of a parsed URL that the Meta adapters inspect.
pub struct ParsedUrl {
    /// The normalised serialization (`Url::as_str`).
    pub serialization: String,
    /// The lower-cased scheme (`Url::scheme`).
    pub scheme: String,
    /// Whether the URL has a host (`Url::host_str().is_some()`).
    pub has_host: bool,
    /// The percent-encoded username, empty when absent (`Url::username`).
    pub username: String,
    /// Whether a password is present (`Url::password().is_some()`).
    pub has_password: bool,
    /// Whether a query is present (`Url::query().is_some()`).
    pub has_query: bool,
    /// Whether a fragment is present (`Url::fragment().is_some()`).
    pub has_fragment: bool,
    /// Whether the path cannot take segments (`Url::cannot_be_a_base`).
    pub cannot_be_a_base: bool,
}

/// Mathematical view of [`ParsedUrl`].
pub struct ParsedUrlView {
    pub serialization: Seq<char>,
    pub scheme: Seq<char>,
    pub has_host: bool,
    pub username: Seq<char>,
    pub has_password: bool,
    pub has_query: bool,
    pub has_fragment: bool,
    pub cannot_be_a_base: bool,
}

impl View for ParsedUrl {
    type V = ParsedUrlView;

    open spec fn view(&self) -> ParsedUrlView {
        ParsedUrlView {
            serialization: self.serialization@,
            scheme: self.scheme@,
            has_host: self.has_host,
            username: self.username@,
            has_password: self.has_password,
            has_query: self.has_query,
            has_fragment: self.has_fragment,
            cannot_be_a_base: self.cannot_be_a_base,
        }
    }
}

/// What `Url::parse` yields for an input, read back through its accessors;
/// `None` when the input is not an absolute URL.
pub uninterp spec fn url_parse_result(input: Seq<char>) -> Option<ParsedUrlView>;

/// The serialization of the URL parsed from `base` after
/// `path_segments_mut()`, `pop_if_empty()`, `push(first)` and `push(second)`;
/// `None` when `base` does not parse or cannot be a base.
pub uninterp spec fn url_with_segments(
    base: Seq<char>,
    first: Seq<char>,
    second: Seq<char>,
) -> Option<Seq<char>>;

/// Calls `reqwest::Url::parse` (the `url` crate's WHATWG parser) and reads the
/// serialization, scheme, host presence, username, password, query and
/// fragment presence and `cannot_be_a_base` of the result. The contract only
/// says that the result is [`url_parse_result`] of the input: the parsing
/// rules themselves are the `url` crate's and are not restated here.
#[verifier::external_body]
pub(crate) fn parse_url(input: &str) -> (r: Option<ParsedUrl>)
    ensures
        match r {
            Some(p) => url_parse_result(input@) == Some(p@),
            None => url_parse_result(input@) is None,
        },
{
    match reqwest::Url::parse(input) {
        Ok(url) => Some(ParsedUrl {
            serialization: url.as_str().to_string(),
            scheme: url.scheme().to_string(),
            has_host: url.host_str().is_some(),
            username: url.username().to_string(),
            has_password: url.password().is_some(),
            has_query: url.query().is_some(),
            has_fragment: url.fragment().is_some(),
            cannot_be_a_base: url.cannot_be_a_base(),
        }),
        Err(_) => None,
    }
}

/// Room left for two appended segments: the parsed serialization plus two
/// slashes plus each segment percent-encoded (at most three bytes per UTF-8
/// byte) stays within `u32::MAX` bytes, the limit of the `url` crate's
/// indices.
pub open spec fn segments_fit(serialization_len: nat, first: Seq<char>, second: Seq<char>) -> bool {
    serialization_len + 3 * utf8_len(first) + 3 * utf8_len(second) + 2 <= u32::MAX
}

/// Parses `base` with `reqwest::Url::parse`, then appends two path segments
/// through `path_segments_mut().pop_if_empty().push(first).push(second)` and
/// returns the serialization. Besides naming the result, the contract states
/// what the `url` documentation says of `path_segments_mut`: it fails exactly
/// when the URL cannot be a base. How segments are percent-encoded is left to
/// the `url` crate and not stated. The `url` crate unwraps a `u32` conversion
/// of the edited length when the segment editor is dropped, so `requires`
/// keeps the result within `u32::MAX` bytes.
#[verifier::external_body]
pub(crate) fn join_url_segments(base: &str, first: &str, second: &str) -> (r: Option<String>)
    requires
        url_parse_result(base@) matches Some(p) ==> segments_fit(
            utf8_len(p.serialization),
            first@,
            second@,
        ),
    ensures
        match r {
            Some(s) => url_with_segments(base@, first@, second@) == Some(s@),
            None => url_with_segments(base@, first@, second@) is None,
        },
        r is Some <==> (url_parse_result(base@) matches Some(p) && !p.cannot_be_a_base),
{
    let mut url = match reqwest::Url::parse(base) {
        Ok(url) => url,
        Err(_) => return None,
    };
    match url.path_segments_mut() {
        Ok(mut segments) => {
            segments.pop_if_empty().push(first).push(second);
        },
        Err(()) => return None,
    }
    Some(url.as_str().to_string())
}

/// `s` equals the literal `https`.
pub(crate) fn is_https(s: &String) -> (r: bool)
    ensures
        r == (s@ == "https"@),
{
    *s == String::from_str("https")
}

/// Invalid Graph API transport configuration shared by Meta adapters.
#[derive(Clone, Copy, Debug, PartialEq, Eq, Structural)]
pub enum MetaTransportConfigError {
    /// Base URL is malformed or cannot safely accept path segments.
    InvalidBaseUrl,
    /// Provider credentials must never be sent over plaintext HTTP.
    InsecureBaseUrl,
}

/// The display text of a configuration error.
pub open spec fn config_error_message(e: MetaTransportConfigError) -> Seq<char> {
    match e {
        MetaTransportConfigError::InvalidBaseUrl => "invalid Meta API base URL"@,
        MetaTransportConfigError::InsecureBaseUrl => "Meta API base URL must use HTTPS"@,
    }
}

impl MetaTransportConfigError {
    /// The human-readable description of the error.
    pub fn message(&self) -> (r: &'static str)
        ensures
            r@ == config_error_message(*self),
    {
        match self {
            MetaTransportConfigError::InvalidBaseUrl => "invalid Meta API base URL",
            MetaTransportConfigError::InsecureBaseUrl => "Meta API base URL must use HTTPS",
        }
    }
}

/// Why a parsed Graph API base is refused, if it is: unparsable bases and
/// those with credentials, a query, a fragment or no room for path segments
/// are invalid; bases with any scheme but `https` are insecure.
pub open spec fn api_base_error(parsed: Option<ParsedUrlView>) -> Option<MetaTransportConfigError> {
    match parsed {
        None => Some(MetaTransportConfigError::InvalidBaseUrl),
        Some(p) => if p.scheme != "https"@ {
            Some(MetaTransportConfigError::InsecureBaseUrl)
        } else if p.cannot_be_a_base || p.username.len() > 0 || p.has_password || p.has_query
            || p.has_fragment {
            Some(MetaTransportConfigError::InvalidBaseUrl)
        } else {
            None
        },
    }
}

/// The base leaves room for a numeric identifier (at most 64 digits) and an
/// operation name of at most 16 ASCII characters.
pub open spec fn has_endpoint_room(base: &GraphApiBase) -> bool {
    base.serialized_len() + 256 <= u32::MAX
}

/// Whether a parsed Graph API base is refused, and why.
pub fn api_base_decision(parsed: &Option<ParsedUrl>) -> (r: Option<MetaTransportConfigError>)
    ensures
        r == api_base_error(parsed_view(*parsed)),
{
    let parsed = match parsed {
        Some(p) => p,
        None => return Some(MetaTransportConfigError::InvalidBaseUrl),
    };
    if !is_https(&parsed.scheme) {
        return Some(MetaTransportConfigError::InsecureBaseUrl);
    }
    if parsed.cannot_be_a_base || !parsed.username.as_str().is_empty() || parsed.has_password
        || parsed.has_query || parsed.has_fragment {
        return Some(MetaTransportConfigError::InvalidBaseUrl);
    }
    None
}

/// The view of an optional parsed URL.
pub open spec fn parsed_view(parsed: Option<ParsedUrl>) -> Option<ParsedUrlView> {
    match parsed {
        Some(p) => Some(p@),
        None => None,
    }
}

/// A validated HTTPS Graph API base URL.
#[derive(Debug)]
pub struct GraphApiBase {
    input: String,
    serialization_len: usize,
}

impl Clone for GraphApiBase {
    fn clone(&self) -> (r: Self)
        ensures
            r@ == self@,
    {
        proof {
            use_type_invariant(self);
        }
        GraphApiBase { input: self.input.clone(), serialization_len: self.serialization_len }
    }
}

impl View for GraphApiBase {
    type V = Seq<char>;

    /// The text the base was validated from.
    closed spec fn view(&self) -> Seq<char> {
        self.input@
    }
}

impl GraphApiBase {
    #[verifier::type_invariant]
    spec fn accepted(self) -> bool {
        &&& api_base_error(url_parse_result(self.input@)) is None
        &&& url_parse_result(self.input@) matches Some(p) && utf8_len(p.serialization)
            == self.serialization_len
    }

    /// The length in UTF-8 bytes of the parsed base's serialization.
    pub closed spec fn serialized_len(&self) -> nat {
        self.serialization_len as nat
    }

    /// The length in UTF-8 bytes of the parsed base's serialization.
    pub fn serialization_len(&self) -> (r: usize)
        ensures
            r == self.serialized_len(),
    {
        self.serialization_len
    }

    /// The URL of `{base}/{first}/{second}`, with one trailing slash of the
    /// base removed first. On a validated base with room for the segments
    /// this never fails.
    pub fn endpoint(&self, first: &str, second: &str) -> (r: String)
        requires
            segments_fit(self.serialized_len(), first@, second@),
        ensures
            url_with_segments(self@, first@, second@) == Some(r@),
    {
        proof {
            use_type_invariant(self);
        }
        match join_url_segments(self.input.as_str(), first, second) {
            Some(url) => url,
            None => {
                proof {
                    assert(false);
                }
                String::new()
            },
        }
    }
}

/// Validates an HTTPS Graph API base URL.
pub fn validated_api_base(value: &str) -> (r: Result<GraphApiBase, MetaTransportConfigError>)
    ensures
        match r {
            Ok(base) => api_base_error(url_parse_result(value@)) is None && base@ == value@,
            Err(e) => api_base_error(url_parse_result(value@)) == Some(e),
        },
{
    let parsed = parse_url(value);
    match api_base_decision(&parsed) {
        Some(e) => Err(e),
        None => {
            let serialization_len = match &parsed {
                Some(p) => p.serialization.as_str().as_bytes().len(),
                None => 0,
            };
            Ok(GraphApiBase { input: String::from_str(value), serialization_len })
        },
    }
}

/// A base with endpoint room fits a numeric identifier and a short ASCII
/// operation name.
pub proof fn lemma_endpoint_room(base: &GraphApiBase, id: Seq<char>, operation: Seq<char>)
    requires
        has_endpoint_room(base),
        valid_numeric_id(id),
        all_ascii(operation),
        operation.len() <= 16,
    ensures
        segments_fit(base.serialized_len(), id, operation),
{
    lemma_ascii_digits_utf8_len(id);
    lemma_ascii_utf8_len(operation);
}

} // verus!
