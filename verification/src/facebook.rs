//! Facebook Pages text publishing: bindings, endpoint, capability snapshot,
//! validation and the publish decisions.
use vstd::prelude::*;

use crate::delivery::{
    bool_extension, extension_is_bool, issues_view, opt_view, plain_delivery_error, plain_receipt,
    receipt_view, strings_view, AltTextCapabilities, DeliveryError, DeliveryErrorClass,
    DeliveryErrorView, IssueView, MediaCapabilities, ProviderCapabilities, ProviderReceipt,
    PublicationFormat, TextCapabilities, ValidationIssue,
};
use crate::graph_url::{
    has_endpoint_room, lemma_endpoint_room, api_base_error, url_parse_result, url_with_segments, validated_api_base, GraphApiBase,
    MetaTransportConfigError,
};
use crate::text::{all_ascii, has_visible_text, str_has_visible_text};
use crate::transport_error::{
    classified_graph_error, graph_error_kind, graph_error_or_default, is_rate_limit_code,
    GraphError, MetaTransportError, MetaTransportErrorKind, TransportErrorView,
};
use crate::values::{MetaAccessToken, MetaExternalId, MetaNumericId};

verus! {

/// Stable Prism provider identifier for Facebook Pages.
pub const FACEBOOK_PROVIDER_ID: &'static str = "meta.facebook";

/// The production Graph API base used when none is given.
pub const DEFAULT_API_BASE: &'static str = "https://graph.facebook.com/v26.0/";

/// Resolved Facebook Page binding kept inside the adapter boundary.
pub struct FacebookBinding {
    page_id: MetaNumericId,
    access_token: MetaAccessToken,
}

impl View for FacebookBinding {
    type V = (Seq<char>, Seq<char>);

    /// The Page identifier and the token.
    closed spec fn view(&self) -> (Seq<char>, Seq<char>) {
        (self.page_id@, self.access_token@)
    }
}

impl FacebookBinding {
    /// Creates a resolved Page/token binding.
    pub fn new(page_id: MetaNumericId, access_token: MetaAccessToken) -> (r: Self)
        ensures
            r@ == (page_id@, access_token@),
    {
        FacebookBinding { page_id, access_token }
    }

    /// Returns the resolved Page identifier.
    pub fn page_id(&self) -> (r: &MetaNumericId)
        ensures
            r@ == self@.0,
    {
        &self.page_id
    }

    /// Returns the resolved access token, for the transport's authorization.
    pub fn access_token(&self) -> (r: &MetaAccessToken)
        ensures
            r@ == self@.1,
    {
        &self.access_token
    }

    /// The debug rendering: the Page identifier and a redacted token.
    pub fn redacted_debug(&self) -> (r: String)
        ensures
            r@ == "FacebookBinding { page_id: MetaNumericId(\""@ + self@.0
                + "\"), access_token: MetaAccessToken([REDACTED]) }"@,
    {
        let mut out = String::from_str("FacebookBinding { page_id: MetaNumericId(\"");
        out.append(self.page_id.as_str());
        out.append("\"), access_token: MetaAccessToken([REDACTED]) }");
        out
    }
}

/// Validates the production Graph API base (what `ReqwestFacebookTransport::new` uses).
pub fn default_api_base() -> (r: Result<GraphApiBase, MetaTransportConfigError>)
    ensures
        match r {
            Ok(base) => api_base_error(url_parse_result(DEFAULT_API_BASE@)) is None && base@
                == DEFAULT_API_BASE@,
            Err(e) => api_base_error(url_parse_result(DEFAULT_API_BASE@)) == Some(e),
        },
{
    validated_api_base(DEFAULT_API_BASE)
}

/// The Page feed endpoint `{base}/{page_id}/feed`.
pub fn feed_endpoint(base: &GraphApiBase, page_id: &MetaNumericId) -> (r: String)
    requires
        has_endpoint_room(base),
    ensures
        url_with_segments(base@, page_id@, "feed"@) == Some(r@),
{
    let id = page_id.as_str();
    proof {
        reveal_strlit("feed");
        assert(all_ascii("feed"@));
        lemma_endpoint_room(base, page_id@, "feed"@);
    }
    base.endpoint(id, "feed")
}

/// The form fields of a name/value list.
pub open spec fn form_view(form: Seq<(String, String)>) -> Seq<(Seq<char>, Seq<char>)> {
    form.map_values(|f: (String, String)| (f.0@, f.1@))
}

/// The Page feed publish form: the text as `message`.
pub fn publish_form(text: &str) -> (r: Vec<(String, String)>)
    ensures
        form_view(r@) == seq![("message"@, text@)],
{
    let mut form = Vec::new();
    form.push((String::from_str("message"), String::from_str(text)));
    assert(form_view(form@) =~= seq![("message"@, text@)]);
    form
}

/// The capability snapshot: Page text posts, no media, no native idempotency.
pub fn capabilities() -> (r: ProviderCapabilities)
    ensures
        r.provider_id@ == FACEBOOK_PROVIDER_ID@,
        opt_view(r.revision) == Some("facebook-pages.text-v1"@),
        r.formats@ == seq![PublicationFormat::Post],
        r.text == (TextCapabilities { supported: true, max_characters: None }),
        r.media.supported_kinds@.len() == 0,
        r.media.max_items == Some(0u32),
        !r.media.mixed_kinds,
        r.media.alt_text == (AltTextCapabilities { supported: false, max_characters: None }),
        r.extensions@.len() == 1,
        extension_is_bool(r.extensions@[0], "meta.facebook.native_idempotency"@, false),
{
    let mut extensions = Vec::new();
    extensions.push(bool_extension("meta.facebook.native_idempotency", false));
    let mut formats = Vec::new();
    formats.push(PublicationFormat::Post);
    ProviderCapabilities {
        provider_id: String::from_str(FACEBOOK_PROVIDER_ID),
        revision: Some(String::from_str("facebook-pages.text-v1")),
        formats,
        text: TextCapabilities { supported: true, max_characters: None },
        media: MediaCapabilities {
            supported_kinds: Vec::new(),
            max_items: Some(0),
            mixed_kinds: false,
            alt_text: AltTextCapabilities { supported: false, max_characters: None },
        },
        extensions,
    }
}

/// Delivery class of a failed Page publish: a transient or unreadable answer
/// to the final, public action leaves the outcome unknown.
pub open spec fn publish_error_class(kind: MetaTransportErrorKind) -> DeliveryErrorClass {
    match kind {
        MetaTransportErrorKind::Authentication => DeliveryErrorClass::AuthRequired,
        MetaTransportErrorKind::RateLimited => DeliveryErrorClass::RateLimited,
        MetaTransportErrorKind::Rejected => DeliveryErrorClass::ProviderRejected,
        MetaTransportErrorKind::Transient => DeliveryErrorClass::OutcomeUnknown,
        MetaTransportErrorKind::InvalidResponse => DeliveryErrorClass::OutcomeUnknown,
    }
}

/// Message of a failed Page publish of the given class.
pub open spec fn publish_error_message(class: DeliveryErrorClass) -> Seq<char> {
    match class {
        DeliveryErrorClass::AuthRequired => "Facebook authorization is missing, expired, or insufficient"@,
        DeliveryErrorClass::RateLimited => "Facebook Page publishing is rate limited"@,
        DeliveryErrorClass::ProviderRejected => "Facebook rejected the Page publishing request"@,
        DeliveryErrorClass::OutcomeUnknown => "Facebook Page publish outcome is unknown; reconcile provider state before retrying"@,
        _ => "Facebook Page publishing failed"@,
    }
}

/// The delivery error a transport failure of the Page publish becomes: the
/// transport's code and retry guidance are kept.
pub open spec fn mapped_publish_error(e: TransportErrorView) -> DeliveryErrorView {
    let class = publish_error_class(e.kind);
    DeliveryErrorView {
        class,
        code: e.code,
        message: publish_error_message(class),
        retry_after_seconds: e.retry_after_seconds,
        details: seq![],
    }
}

/// Maps a transport failure of the Page publish to a delivery error.
pub fn map_publish_error(error: MetaTransportError) -> (r: DeliveryError)
    ensures
        r@ == mapped_publish_error(error@),
{
    let class = match error.kind {
        MetaTransportErrorKind::Authentication => DeliveryErrorClass::AuthRequired,
        MetaTransportErrorKind::RateLimited => DeliveryErrorClass::RateLimited,
        MetaTransportErrorKind::Rejected => DeliveryErrorClass::ProviderRejected,
        MetaTransportErrorKind::Transient | MetaTransportErrorKind::InvalidResponse => {
            DeliveryErrorClass::OutcomeUnknown
        },
    };
    let message = match class {
        DeliveryErrorClass::AuthRequired => "Facebook authorization is missing, expired, or insufficient",
        DeliveryErrorClass::RateLimited => "Facebook Page publishing is rate limited",
        DeliveryErrorClass::ProviderRejected => "Facebook rejected the Page publishing request",
        DeliveryErrorClass::OutcomeUnknown => "Facebook Page publish outcome is unknown; reconcile provider state before retrying",
        DeliveryErrorClass::InvalidRequest | DeliveryErrorClass::Retryable
        | DeliveryErrorClass::Terminal => "Facebook Page publishing failed",
    };
    let mapped = DeliveryError::new(class, error.code.as_str(), message);
    match error.retry_after_seconds {
        Some(seconds) => mapped.with_retry_after(seconds),
        None => mapped,
    }
}

/// The error of a request without a credential reference.
pub open spec fn credential_required_error() -> DeliveryErrorView {
    plain_delivery_error(
        DeliveryErrorClass::AuthRequired,
        "facebook.credential.required"@,
        "Facebook Page publishing requires a configured credential reference"@,
    )
}

/// The error of a request without non-blank text.
pub open spec fn text_required_error() -> DeliveryErrorView {
    plain_delivery_error(
        DeliveryErrorClass::InvalidRequest,
        "facebook.text.required"@,
        "the Facebook Page text adapter requires non-empty text"@,
    )
}

/// The error returned when a request carries no credential reference.
pub fn credential_required() -> (r: DeliveryError)
    ensures
        r@ == credential_required_error(),
{
    DeliveryError::new(
        DeliveryErrorClass::AuthRequired,
        "facebook.credential.required",
        "Facebook Page publishing requires a configured credential reference",
    )
}

/// What the publish decisions read from a Prism publish request.
pub struct FacebookPublishRequest {
    /// Whether the target carries a credential reference.
    pub has_credential: bool,
    /// The variant's body text, if any.
    pub text: Option<String>,
}

/// What happened since the last action.
pub enum FacebookPublishEvent {
    /// The request arrived.
    Start,
    /// The binding resolver answered; on success the caller keeps the binding.
    BindingResolved(Result<(), DeliveryError>),
    /// The transport answered the Page feed publish.
    Published(Result<MetaExternalId, MetaTransportError>),
}

/// What the caller does next.
pub enum FacebookPublishAction {
    /// Resolve the channel/credential binding.
    ResolveBinding,
    /// Publish this text (the request's text, unchanged) to the Page feed.
    PublishText(String),
    /// Return this result.
    Finish(Result<ProviderReceipt, DeliveryError>),
}

/// The next action of the Page publish flow: resolve the binding (a
/// credential is required), then publish the request's text if it is not
/// blank, then report the receipt or the mapped transport error.
pub fn publish_step(request: &FacebookPublishRequest, event: FacebookPublishEvent) -> (r:
    FacebookPublishAction)
    ensures
        event is Start ==> if request.has_credential {
            r is ResolveBinding
        } else {
            r matches FacebookPublishAction::Finish(Err(e)) && e@ == credential_required_error()
        },
        event matches FacebookPublishEvent::BindingResolved(Err(e)) ==> r matches FacebookPublishAction::Finish(Err(e2)) && e2@ == e@,
        event matches FacebookPublishEvent::BindingResolved(Ok(_)) ==> match request.text {
            Some(t) if has_visible_text(t@) => r matches FacebookPublishAction::PublishText(p) && p@ == t@,
            _ => r matches FacebookPublishAction::Finish(Err(e)) && e@ == text_required_error(),
        },
        event matches FacebookPublishEvent::Published(Ok(id)) ==> r matches FacebookPublishAction::Finish(Ok(receipt)) && receipt@ == receipt_view(id@, seq![]),
        event matches FacebookPublishEvent::Published(Err(e)) ==> r matches FacebookPublishAction::Finish(Err(d)) && d@ == mapped_publish_error(e@),
{
    match event {
        FacebookPublishEvent::Start => {
            if request.has_credential {
                FacebookPublishAction::ResolveBinding
            } else {
                FacebookPublishAction::Finish(Err(credential_required()))
            }
        },
        FacebookPublishEvent::BindingResolved(Err(e)) => FacebookPublishAction::Finish(Err(e)),
        FacebookPublishEvent::BindingResolved(Ok(())) => match &request.text {
            Some(t) => if str_has_visible_text(t.as_str()) {
                FacebookPublishAction::PublishText(t.clone())
            } else {
                FacebookPublishAction::Finish(Err(text_required()))
            },
            None => FacebookPublishAction::Finish(Err(text_required())),
        },
        FacebookPublishEvent::Published(Ok(id)) => FacebookPublishAction::Finish(
            Ok(plain_receipt(id.as_str())),
        ),
        FacebookPublishEvent::Published(Err(e)) => FacebookPublishAction::Finish(
            Err(map_publish_error(e)),
        ),
    }
}

fn text_required() -> (r: DeliveryError)
    ensures
        r@ == text_required_error(),
{
    DeliveryError::new(
        DeliveryErrorClass::InvalidRequest,
        "facebook.text.required",
        "the Facebook Page text adapter requires non-empty text",
    )
}

/// What validation reads from a Prism publish request.
pub struct FacebookValidateRequest {
    /// The target's identifier, as it appears in request paths.
    pub target_id: String,
    /// Whether the target carries a credential reference.
    pub has_credential: bool,
    /// The keys of the target's provider options, in request order.
    pub option_keys: Vec<String>,
}

/// The issue reported for a missing credential.
pub open spec fn credential_issue(target_id: Seq<char>) -> IssueView {
    (
        "facebook.credential.required"@,
        "/targets/"@ + target_id + "/credential"@,
        "Facebook Page publishing requires a configured credential reference"@,
    )
}

/// The issue reported for one provider option.
pub open spec fn option_issue(target_id: Seq<char>, key: Seq<char>) -> IssueView {
    (
        "facebook.option.unsupported"@,
        "/targets/"@ + target_id + "/options/"@ + key,
        "this Facebook adapter version does not implement provider options"@,
    )
}

/// Validation issues: a missing credential, then one per provider option
/// (this adapter supports none).
pub open spec fn expected_issues(
    target_id: Seq<char>,
    has_credential: bool,
    keys: Seq<Seq<char>>,
) -> Seq<IssueView> {
    (if has_credential {
        seq![]
    } else {
        seq![credential_issue(target_id)]
    }) + keys.map_values(|k: Seq<char>| option_issue(target_id, k))
}

/// Computes the validation issues of a request.
pub fn validation_issues(request: &FacebookValidateRequest) -> (r: Vec<ValidationIssue>)
    ensures
        issues_view(r@) == expected_issues(
            request.target_id@,
            request.has_credential,
            strings_view(request.option_keys@),
        ),
{
    let mut issues: Vec<ValidationIssue> = Vec::new();
    if !request.has_credential {
        let mut path = String::from_str("/targets/");
        path.append(request.target_id.as_str());
        path.append("/credential");
        issues.push(
            ValidationIssue::error(
                "facebook.credential.required",
                path,
                "Facebook Page publishing requires a configured credential reference",
            ),
        );
    }
    let ghost head = issues_view(issues@);
    let ghost keys = strings_view(request.option_keys@);
    assert(head =~= (if request.has_credential {
        seq![]
    } else {
        seq![credential_issue(request.target_id@)]
    }));
    let n = request.option_keys.len();
    for i in 0..n
        invariant
            n == request.option_keys@.len(),
            keys == strings_view(request.option_keys@),
            issues_view(issues@) =~= head + keys.take(i as int).map_values(
                |k: Seq<char>| option_issue(request.target_id@, k),
            ),
    {
        let mut path = String::from_str("/targets/");
        path.append(request.target_id.as_str());
        path.append("/options/");
        path.append(request.option_keys[i].as_str());
        let ghost before = issues@;
        issues.push(
            ValidationIssue::error(
                "facebook.option.unsupported",
                path,
                "this Facebook adapter version does not implement provider options",
            ),
        );
        assert(issues@ =~= before.push(issues@.last()));
        assert(issues_view(issues@) =~= issues_view(before).push(issues@.last()@));
        assert(keys.take(i + 1) =~= keys.take(i as int).push(keys[i as int]));
    }
    assert(keys.take(n as int) =~= keys);
    issues
}

/// What happened since the last validation action.
pub enum FacebookValidateEvent {
    /// The request arrived.
    Start,
    /// The binding resolver answered.
    BindingResolved(Result<(), DeliveryError>),
}

/// What the validating caller does next.
pub enum FacebookValidateAction {
    /// Resolve the binding, to prove it exists, without publishing.
    ResolveBinding,
    /// Return this result.
    Finish(Result<Vec<ValidationIssue>, DeliveryError>),
}

/// The next action of validation: report the issues if there are any;
/// otherwise resolve the binding and report its failure, if any.
pub fn validate_step(request: &FacebookValidateRequest, event: FacebookValidateEvent) -> (r:
    FacebookValidateAction)
    ensures
        ({
            let expected = expected_issues(
                request.target_id@,
                request.has_credential,
                strings_view(request.option_keys@),
            );
            &&& event is Start ==> if expected.len() == 0 {
                r is ResolveBinding
            } else {
                r matches FacebookValidateAction::Finish(Ok(issues)) && issues_view(issues@) == expected
            }
            &&& event matches FacebookValidateEvent::BindingResolved(Ok(_)) ==> r matches FacebookValidateAction::Finish(Ok(issues)) && issues_view(issues@) == expected
            &&& event matches FacebookValidateEvent::BindingResolved(Err(e)) ==> r matches FacebookValidateAction::Finish(Err(e2)) && e2@ == e@
        }),
{
    match event {
        FacebookValidateEvent::Start => {
            let issues = validation_issues(request);
            if issues.len() == 0 {
                FacebookValidateAction::ResolveBinding
            } else {
                FacebookValidateAction::Finish(Ok(issues))
            }
        },
        FacebookValidateEvent::BindingResolved(Ok(())) => FacebookValidateAction::Finish(
            Ok(validation_issues(request)),
        ),
        FacebookValidateEvent::BindingResolved(Err(e)) => FacebookValidateAction::Finish(Err(e)),
    }
}

/// Law: a Graph error answer to the Page publish keeps its stable code and
/// retry guidance through the mapping; authentication failures (HTTP 401/403
/// or code 190) require authorization, throttling (HTTP 429 or a throttling
/// code) stays rate limited, other answers with neither a 5xx status nor the
/// transient flag are provider rejections, and the remaining ones (5xx or
/// transient) leave the outcome unknown.
pub proof fn lemma_graph_errors_keep_their_meaning(
    provider: Seq<char>,
    status: u16,
    graph: Option<GraphError>,
    retry_after_seconds: Option<u64>,
)
    ensures
        ({
            let e = classified_graph_error(provider, status, graph, retry_after_seconds);
            let g = graph_error_or_default(graph);
            let d = mapped_publish_error(e);
            &&& d.code == e.code
            &&& d.retry_after_seconds == retry_after_seconds
            &&& d.details.len() == 0
            &&& (status == 401 || status == 403 || g.code == Some(190i64)) ==> d.class
                == DeliveryErrorClass::AuthRequired
            &&& !(status == 401 || status == 403 || g.code == Some(190i64)) && (status == 429
                || is_rate_limit_code(g.code)) ==> d.class == DeliveryErrorClass::RateLimited
            &&& d.class == DeliveryErrorClass::ProviderRejected <==> graph_error_kind(status, g)
                == MetaTransportErrorKind::Rejected
            &&& graph_error_kind(status, g) == MetaTransportErrorKind::Transient ==> d.class
                == DeliveryErrorClass::OutcomeUnknown
        }),
{
}

/// Law: an unreadable or undecodable answer to the Page publish, and any
/// transient failure, leaves the outcome unknown: the caller must reconcile
/// before retrying.
pub proof fn lemma_ambiguous_answers_leave_outcome_unknown(e: TransportErrorView)
    requires
        e.kind == MetaTransportErrorKind::Transient || e.kind == MetaTransportErrorKind::InvalidResponse,
    ensures
        mapped_publish_error(e).class == DeliveryErrorClass::OutcomeUnknown,
{
}

/// Law: provider options are never accepted by the Facebook Page publish: a request
/// passes validation (and reaches binding resolution) only when it has a
/// credential and no options.
pub proof fn lemma_options_and_missing_credentials_block_validation(
    target_id: Seq<char>,
    has_credential: bool,
    keys: Seq<Seq<char>>,
)
    ensures
        expected_issues(target_id, has_credential, keys).len() == 0 ==> has_credential && keys.len() == 0,
        expected_issues(target_id, has_credential, keys).len() >= keys.len(),
{
}

} // verus!
