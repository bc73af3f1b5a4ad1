//! Bounded Meta values: access tokens, numeric Graph identifiers, provider
//! identifiers and public media URLs.
use vstd::prelude::*;

use crate::graph_url::{is_https, parse_url, parsed_view, url_parse_result, ParsedUrl, ParsedUrlView};
use crate::text::{
    all_ascii_digits, is_unicode_control, is_unicode_whitespace, lemma_ascii_digits_utf8_len,
    str_all_ascii_digits, str_has_control_or_whitespace, str_has_whitespace, utf8_len,
};

verus! {

/// Invalid secret, identifier, recipient, or public-media value.
#[derive(Clone, Copy, Debug, PartialEq, Eq, Structural)]
pub enum MetaValueError {
    /// Access token is missing or unsafe to retain.
    InvalidAccessToken,
    /// Graph API path identifier is not a bounded decimal string.
    InvalidNumericId,
    /// Provider response identifier is empty or unsafe.
    InvalidExternalId,
    /// Media URL is not a safe public HTTPS URL.
    InvalidMediaUrl,
    /// WhatsApp recipient is not a canonical decimal recipient identifier.
    InvalidRecipient,
}

/// The display text of a value error.
pub open spec fn value_error_message(e: MetaValueError) -> Seq<char> {
    match e {
        MetaValueError::InvalidAccessToken => "invalid Meta access token"@,
        MetaValueError::InvalidNumericId => "invalid Meta numeric identifier"@,
        MetaValueError::InvalidExternalId => "invalid Meta external identifier"@,
        MetaValueError::InvalidMediaUrl => "invalid public media URL"@,
        MetaValueError::InvalidRecipient => "invalid WhatsApp recipient"@,
    }
}

impl MetaValueError {
    /// The human-readable description of the error.
    pub fn message(&self) -> (r: &'static str)
        ensures
            r@ == value_error_message(*self),
    {
        match self {
            MetaValueError::InvalidAccessToken => "invalid Meta access token",
            MetaValueError::InvalidNumericId => "invalid Meta numeric identifier",
            MetaValueError::InvalidExternalId => "invalid Meta external identifier",
            MetaValueError::InvalidMediaUrl => "invalid public media URL",
            MetaValueError::InvalidRecipient => "invalid WhatsApp recipient",
        }
    }
}

/// A token is kept when it is non-empty, at most 8192 UTF-8 bytes long and
/// holds no white space.
pub open spec fn valid_access_token(s: Seq<char>) -> bool {
    &&& s.len() > 0
    &&& utf8_len(s) <= 8192
    &&& forall|i: int| 0 <= i < s.len() ==> !is_unicode_whitespace(#[trigger] s[i])
}

/// A numeric identifier is 1 to 64 ASCII digits.
pub open spec fn valid_numeric_id(s: Seq<char>) -> bool {
    &&& 0 < s.len() <= 64
    &&& all_ascii_digits(s)
}

/// An external identifier is non-empty, at most 512 UTF-8 bytes long and holds
/// no control or white-space character.
pub open spec fn valid_external_id(s: Seq<char>) -> bool {
    &&& s.len() > 0
    &&& utf8_len(s) <= 512
    &&& forall|i: int|
        0 <= i < s.len() ==> !is_unicode_control(#[trigger] s[i]) && !is_unicode_whitespace(s[i])
}

/// A media URL is kept when it parses, uses `https`, has a host and carries
/// neither user credentials nor a fragment.
pub open spec fn accepted_media_url(parsed: Option<ParsedUrlView>) -> bool {
    parsed matches Some(p) && p.scheme == "https"@ && p.has_host && p.username.len() == 0
        && !p.has_password && !p.has_fragment
}

/// Secret Meta access token with intentionally redacted formatting.
pub struct MetaAccessToken(String);

impl View for MetaAccessToken {
    type V = Seq<char>;

    closed spec fn view(&self) -> Seq<char> {
        self.0@
    }
}

impl MetaAccessToken {
    #[verifier::type_invariant]
    spec fn wf(self) -> bool {
        valid_access_token(self.0@)
    }

    /// Wraps a bounded non-empty token without exposing it through formatting.
    pub fn new(value: &str) -> (r: Result<Self, MetaValueError>)
        ensures
            match r {
                Ok(token) => valid_access_token(value@) && token@ == value@,
                Err(e) => !valid_access_token(value@) && e == MetaValueError::InvalidAccessToken,
            },
    {
        if value.is_empty() || value.as_bytes().len() > 8192 || str_has_whitespace(value) {
            return Err(MetaValueError::InvalidAccessToken);
        }
        Ok(MetaAccessToken(String::from_str(value)))
    }

    /// The raw token, for the transport that sends it as bearer authorization.
    pub fn expose_secret(&self) -> (r: &str)
        ensures
            r@ == self@,
            valid_access_token(self@),
    {
        proof {
            use_type_invariant(self);
        }
        self.0.as_str()
    }

    /// The debug rendering, which never shows the token.
    pub fn redacted_debug(&self) -> (r: &'static str)
        ensures
            r@ == "MetaAccessToken([REDACTED])"@,
    {
        "MetaAccessToken([REDACTED])"
    }
}

/// Numeric Meta object identifier used in Graph API path segments.
#[derive(Debug, PartialEq, Eq)]
pub struct MetaNumericId(String);

impl View for MetaNumericId {
    type V = Seq<char>;

    closed spec fn view(&self) -> Seq<char> {
        self.0@
    }
}

impl Clone for MetaNumericId {
    fn clone(&self) -> (r: Self)
        ensures
            r@ == self@,
    {
        proof {
            use_type_invariant(self);
        }
        MetaNumericId(self.0.clone())
    }
}

impl MetaNumericId {
    #[verifier::type_invariant]
    spec fn wf(self) -> bool {
        valid_numeric_id(self.0@)
    }

    /// Creates a bounded decimal identifier.
    pub fn new(value: &str) -> (r: Result<Self, MetaValueError>)
        ensures
            match r {
                Ok(id) => valid_numeric_id(value@) && id@ == value@,
                Err(e) => !valid_numeric_id(value@) && e == MetaValueError::InvalidNumericId,
            },
    {
        if value.is_empty() || value.as_bytes().len() > 64 || !str_all_ascii_digits(value) {
            proof {
                if all_ascii_digits(value@) {
                    lemma_ascii_digits_utf8_len(value@);
                }
            }
            return Err(MetaValueError::InvalidNumericId);
        }
        proof {
            lemma_ascii_digits_utf8_len(value@);
        }
        Ok(MetaNumericId(String::from_str(value)))
    }

    /// Returns the identifier as a string slice.
    pub fn as_str(&self) -> (r: &str)
        ensures
            r@ == self@,
            valid_numeric_id(self@),
    {
        proof {
            use_type_invariant(self);
        }
        self.0.as_str()
    }
}

/// Provider-native identifier returned after an external action.
#[derive(Debug, PartialEq, Eq)]
pub struct MetaExternalId(String);

impl View for MetaExternalId {
    type V = Seq<char>;

    closed spec fn view(&self) -> Seq<char> {
        self.0@
    }
}

impl Clone for MetaExternalId {
    fn clone(&self) -> (r: Self)
        ensures
            r@ == self@,
    {
        proof {
            use_type_invariant(self);
        }
        MetaExternalId(self.0.clone())
    }
}

impl MetaExternalId {
    #[verifier::type_invariant]
    spec fn wf(self) -> bool {
        valid_external_id(self.0@)
    }

    /// Creates a bounded identifier without accepting whitespace/control characters.
    pub fn new(value: &str) -> (r: Result<Self, MetaValueError>)
        ensures
            match r {
                Ok(id) => valid_external_id(value@) && id@ == value@,
                Err(e) => !valid_external_id(value@) && e == MetaValueError::InvalidExternalId,
            },
    {
        if value.is_empty() || value.as_bytes().len() > 512 || str_has_control_or_whitespace(value) {
            return Err(MetaValueError::InvalidExternalId);
        }
        Ok(MetaExternalId(String::from_str(value)))
    }

    /// Returns the identifier as a string slice.
    pub fn as_str(&self) -> (r: &str)
        ensures
            r@ == self@,
            valid_external_id(self@),
    {
        proof {
            use_type_invariant(self);
        }
        self.0.as_str()
    }
}

/// Public media URL resolved inside an adapter boundary.
pub struct PublicMediaUrl(String);

impl View for PublicMediaUrl {
    type V = Seq<char>;

    /// The normalised serialization of the URL.
    closed spec fn view(&self) -> Seq<char> {
        self.0@
    }
}

/// Whether a parsed media URL is kept: its serialization when it is, the
/// media-URL error when it is not.
pub fn media_url_decision(parsed: Option<ParsedUrl>) -> (r: Result<String, MetaValueError>)
    ensures
        match r {
            Ok(serialization) => accepted_media_url(parsed_view(parsed)) && serialization@
                == parsed_view(parsed)->0.serialization,
            Err(e) => !accepted_media_url(parsed_view(parsed)) && e
                == MetaValueError::InvalidMediaUrl,
        },
{
    let parsed = match parsed {
        Some(p) => p,
        None => return Err(MetaValueError::InvalidMediaUrl),
    };
    if !is_https(&parsed.scheme) || !parsed.has_host || !parsed.username.as_str().is_empty()
        || parsed.has_password || parsed.has_fragment {
        return Err(MetaValueError::InvalidMediaUrl);
    }
    Ok(parsed.serialization)
}

/// `url` is the serialization of some accepted media URL.
pub open spec fn is_accepted_media_serialization(url: Seq<char>) -> bool {
    exists|input: Seq<char>|
        accepted_media_url(#[trigger] url_parse_result(input)) && url_parse_result(input)->0.serialization
            == url
}

impl PublicMediaUrl {
    #[verifier::type_invariant]
    spec fn wf(self) -> bool {
        is_accepted_media_serialization(self.0@)
    }

    /// Accepts only HTTPS URLs with no embedded user credentials or fragments.
    pub fn new(value: &str) -> (r: Result<Self, MetaValueError>)
        ensures
            match r {
                Ok(url) => accepted_media_url(url_parse_result(value@)) && url@ == url_parse_result(
                    value@,
                )->0.serialization,
                Err(e) => !accepted_media_url(url_parse_result(value@)) && e
                    == MetaValueError::InvalidMediaUrl,
            },
    {
        match media_url_decision(parse_url(value)) {
            Ok(serialization) => Ok(PublicMediaUrl(serialization)),
            Err(e) => Err(e),
        }
    }

    /// The normalised URL text, for the transport that hands it to Meta.
    pub fn as_str(&self) -> (r: &str)
        ensures
            r@ == self@,
            is_accepted_media_serialization(self@),
    {
        proof {
            use_type_invariant(self);
        }
        self.0.as_str()
    }

    /// The debug rendering, which never shows the (possibly signed) URL.
    pub fn redacted_debug(&self) -> (r: &'static str)
        ensures
            r@ == "PublicMediaUrl([REDACTED])"@,
    {
        "PublicMediaUrl([REDACTED])"
    }
}

} // verus!
