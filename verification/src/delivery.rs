//! Provider-neutral results that the Meta adapters hand back to Prism:
//! delivery errors, receipts, validation issues and capability snapshots.
use vstd::prelude::*;

verus! {

/// How Prism treats a failed delivery.
#[derive(Clone, Copy, Debug, PartialEq, Eq, Structural)]
pub enum DeliveryErrorClass {
    /// The request cannot be delivered as it stands.
    InvalidRequest,
    /// Authorization is missing, expired or insufficient.
    AuthRequired,
    /// The provider throttled the request.
    RateLimited,
    /// The provider deterministically rejected the request.
    ProviderRejected,
    /// Nothing public happened; the request may be retried.
    Retryable,
    /// The external action may have happened; reconcile before retrying.
    OutcomeUnknown,
    /// The delivery failed for good.
    Terminal,
}

/// One string-valued detail attached to an error or a receipt.
#[derive(Clone, Debug, PartialEq, Eq)]
pub struct Detail {
    /// Namespaced key such as `meta.instagram.container_id`.
    pub key: String,
    /// The detail's value.
    pub value: String,
}

/// Mathematical view of a [`Detail`]: key and value.
pub type DetailView = (Seq<char>, Seq<char>);

impl View for Detail {
    type V = DetailView;

    open spec fn view(&self) -> DetailView {
        (self.key@, self.value@)
    }
}

/// The views of a list of details.
pub open spec fn details_view(details: Seq<Detail>) -> Seq<DetailView> {
    details.map_values(|d: Detail| d@)
}

/// A redacted delivery failure.
#[derive(Clone, Debug, PartialEq, Eq)]
pub struct DeliveryError {
    /// How Prism treats the failure.
    pub class: DeliveryErrorClass,
    /// Stable machine-readable code.
    pub code: String,
    /// Human-readable explanation without provider content.
    pub message: String,
    /// Optional retry guidance.
    pub retry_after_seconds: Option<u64>,
    /// Extra provider facts, in insertion order.
    pub details: Vec<Detail>,
}

/// Mathematical view of [`DeliveryError`].
pub struct DeliveryErrorView {
    pub class: DeliveryErrorClass,
    pub code: Seq<char>,
    pub message: Seq<char>,
    pub retry_after_seconds: Option<u64>,
    pub details: Seq<DetailView>,
}

impl View for DeliveryError {
    type V = DeliveryErrorView;

    open spec fn view(&self) -> DeliveryErrorView {
        DeliveryErrorView {
            class: self.class,
            code: self.code@,
            message: self.message@,
            retry_after_seconds: self.retry_after_seconds,
            details: details_view(self.details@),
        }
    }
}

/// A delivery error with no retry guidance and no details.
pub open spec fn plain_delivery_error(
    class: DeliveryErrorClass,
    code: Seq<char>,
    message: Seq<char>,
) -> DeliveryErrorView {
    DeliveryErrorView { class, code, message, retry_after_seconds: None, details: seq![] }
}

impl DeliveryError {
    /// Creates an error without retry guidance or details.
    pub fn new(class: DeliveryErrorClass, code: &str, message: &str) -> (r: Self)
        ensures
            r@ == plain_delivery_error(class, code@, message@),
    {
        let r = DeliveryError {
            class,
            code: String::from_str(code),
            message: String::from_str(message),
            retry_after_seconds: None,
            details: Vec::new(),
        };
        assert(details_view(r.details@) =~= seq![]);
        r
    }

    /// Adds retry guidance.
    pub fn with_retry_after(self, seconds: u64) -> (r: Self)
        ensures
            r@ == (DeliveryErrorView { retry_after_seconds: Some(seconds), ..self@ }),
    {
        let mut error = self;
        error.retry_after_seconds = Some(seconds);
        error
    }

    /// Appends one detail.
    pub fn with_detail(self, key: &str, value: &str) -> (r: Self)
        ensures
            r@ == (DeliveryErrorView { details: self@.details.push((key@, value@)), ..self@ }),
    {
        let mut error = self;
        let ghost before = error.details@;
        error.details.push(Detail { key: String::from_str(key), value: String::from_str(value) });
        assert(details_view(error.details@) =~= details_view(before).push((key@, value@)));
        error
    }
}

/// What a provider reports after a successful external action.
#[derive(Clone, Debug, PartialEq, Eq)]
pub struct ProviderReceipt {
    /// Provider-native identifier of the published object.
    pub external_id: String,
    /// Public URL of the object, when known.
    pub external_url: Option<String>,
    /// Extra provider facts, in insertion order.
    pub details: Vec<Detail>,
}

/// Mathematical view of [`ProviderReceipt`].
pub struct ReceiptView {
    pub external_id: Seq<char>,
    pub external_url: Option<Seq<char>>,
    pub details: Seq<DetailView>,
}

impl View for ProviderReceipt {
    type V = ReceiptView;

    open spec fn view(&self) -> ReceiptView {
        ReceiptView {
            external_id: self.external_id@,
            external_url: match self.external_url {
                Some(u) => Some(u@),
                None => None,
            },
            details: details_view(self.details@),
        }
    }
}

/// A blocking problem found before any external action.
#[derive(Clone, Debug, PartialEq, Eq)]
pub struct ValidationIssue {
    /// Stable machine-readable code.
    pub code: String,
    /// JSON-pointer-like location in the request.
    pub path: String,
    /// Human-readable explanation.
    pub message: String,
}

/// Mathematical view of a [`ValidationIssue`]: code, path, message.
pub type IssueView = (Seq<char>, Seq<char>, Seq<char>);

impl View for ValidationIssue {
    type V = IssueView;

    open spec fn view(&self) -> IssueView {
        (self.code@, self.path@, self.message@)
    }
}

/// The views of a list of issues.
pub open spec fn issues_view(issues: Seq<ValidationIssue>) -> Seq<IssueView> {
    issues.map_values(|i: ValidationIssue| i@)
}

impl ValidationIssue {
    /// Creates an error-severity issue; every issue the Meta adapters report
    /// blocks publishing.
    pub fn error(code: &str, path: String, message: &str) -> (r: Self)
        ensures
            r@ == (code@, path@, message@),
    {
        ValidationIssue { code: String::from_str(code), path, message: String::from_str(message) }
    }
}

/// Publication surfaces a provider can target.
#[derive(Clone, Copy, Debug, PartialEq, Eq, Structural)]
pub enum PublicationFormat {
    /// A feed publication.
    Post,
    /// A recipient-addressed message.
    Message,
}

/// Kinds of media attached to a content variant.
#[derive(Clone, Copy, Debug, PartialEq, Eq, Structural)]
pub enum MediaKind {
    /// A still image.
    Image,
    /// A video.
    Video,
}

/// Value of a capability extension.
#[derive(Clone, Debug, PartialEq, Eq)]
pub enum ExtensionValue {
    /// A JSON boolean.
    Bool(bool),
    /// A JSON string.
    Text(String),
}

/// One namespaced capability extension.
#[derive(Clone, Debug, PartialEq, Eq)]
pub struct Extension {
    /// Namespaced key such as `meta.facebook.native_idempotency`.
    pub key: String,
    /// The extension's value.
    pub value: ExtensionValue,
}

/// Text support of a provider.
#[derive(Clone, Copy, Debug, PartialEq, Eq, Structural)]
pub struct TextCapabilities {
    /// Whether text is accepted.
    pub supported: bool,
    /// Maximum number of characters, when bounded.
    pub max_characters: Option<u32>,
}

/// Alt-text support of a provider.
#[derive(Clone, Copy, Debug, PartialEq, Eq, Structural)]
pub struct AltTextCapabilities {
    /// Whether alt text is preserved.
    pub supported: bool,
    /// Maximum number of characters, when bounded.
    pub max_characters: Option<u32>,
}

/// Media support of a provider.
#[derive(Clone, Debug, PartialEq, Eq)]
pub struct MediaCapabilities {
    /// Accepted media kinds, without repetition.
    pub supported_kinds: Vec<MediaKind>,
    /// Maximum number of media items, when bounded.
    pub max_items: Option<u32>,
    /// Whether kinds may be mixed in one publication.
    pub mixed_kinds: bool,
    /// Alt-text support.
    pub alt_text: AltTextCapabilities,
}

/// Capability snapshot of one provider adapter.
#[derive(Clone, Debug, PartialEq, Eq)]
pub struct ProviderCapabilities {
    /// The provider identifier.
    pub provider_id: String,
    /// Adapter capability revision.
    pub revision: Option<String>,
    /// Supported publication formats, without repetition.
    pub formats: Vec<PublicationFormat>,
    /// Text support.
    pub text: TextCapabilities,
    /// Media support.
    pub media: MediaCapabilities,
    /// Namespaced extensions, in insertion order.
    pub extensions: Vec<Extension>,
}

/// The text of an optional string.
pub open spec fn opt_view(s: Option<String>) -> Option<Seq<char>> {
    match s {
        Some(s) => Some(s@),
        None => None,
    }
}

/// The extension maps `key` to the boolean `value`.
pub open spec fn extension_is_bool(e: Extension, key: Seq<char>, value: bool) -> bool {
    e.key@ == key && e.value == ExtensionValue::Bool(value)
}

/// The extension maps `key` to the string `value`.
pub open spec fn extension_is_text(e: Extension, key: Seq<char>, value: Seq<char>) -> bool {
    &&& e.key@ == key
    &&& e.value matches ExtensionValue::Text(t) && t@ == value
}

/// Builds a boolean extension.
pub fn bool_extension(key: &str, value: bool) -> (r: Extension)
    ensures
        extension_is_bool(r, key@, value),
{
    Extension { key: String::from_str(key), value: ExtensionValue::Bool(value) }
}

/// Builds a string extension.
pub fn text_extension(key: &str, value: &str) -> (r: Extension)
    ensures
        extension_is_text(r, key@, value@),
{
    Extension { key: String::from_str(key), value: ExtensionValue::Text(String::from_str(value)) }
}

/// A receipt for `external_id` with no URL and the given details.
pub open spec fn receipt_view(external_id: Seq<char>, details: Seq<DetailView>) -> ReceiptView {
    ReceiptView { external_id, external_url: None, details }
}

/// Builds a receipt without URL or details.
pub fn plain_receipt(external_id: &str) -> (r: ProviderReceipt)
    ensures
        r@ == receipt_view(external_id@, seq![]),
{
    let r = ProviderReceipt {
        external_id: String::from_str(external_id),
        external_url: None,
        details: Vec::new(),
    };
    assert(details_view(r.details@) =~= seq![]);
    r
}

/// The texts of a list of strings.
pub open spec fn strings_view(keys: Seq<String>) -> Seq<Seq<char>> {
    keys.map_values(|k: String| k@)
}

} // verus!
