//! Instagram Professional account single-image feed publishing: bindings,
//! endpoints, forms, capability snapshot, validation and the two-stage
//! container publish decisions.
use vstd::prelude::*;

use crate::delivery::{
    bool_extension, details_view, extension_is_bool, issues_view, opt_view, plain_delivery_error,
    plain_receipt, receipt_view, strings_view, AltTextCapabilities, DeliveryError, DeliveryErrorClass,
    DeliveryErrorView, Detail, IssueView, MediaCapabilities, MediaKind, ProviderCapabilities,
    ProviderReceipt, PublicationFormat, TextCapabilities, ValidationIssue,
};
use crate::graph_url::{
    has_endpoint_room, lemma_endpoint_room, api_base_error, url_parse_result, url_with_segments, validated_api_base, GraphApiBase,
    MetaTransportConfigError,
};
use crate::text::{all_ascii, has_visible_text, str_has_visible_text};
use crate::transport_error::{
    classified_graph_error, graph_error_kind, graph_error_or_default, is_rate_limit_code,
    GraphError, MetaTransportError, MetaTransportErrorKind, TransportErrorView,
};
use crate::values::{MetaAccessToken, MetaExternalId, MetaNumericId, PublicMediaUrl};

verus! {

/// Stable Prism provider identifier for Instagram.
pub const INSTAGRAM_PROVIDER_ID: &'static str = "meta.instagram";

/// The production Graph API base used when none is given.
pub const DEFAULT_API_BASE: &'static str = "https://graph.instagram.com/v26.0/";

/// Resolved Instagram Professional account binding.
pub struct InstagramBinding {
    user_id: MetaNumericId,
    access_token: MetaAccessToken,
}

impl View for InstagramBinding {
    type V = (Seq<char>, Seq<char>);

    /// The Instagram user identifier and the token.
    closed spec fn view(&self) -> (Seq<char>, Seq<char>) {
        (self.user_id@, self.access_token@)
    }
}

impl InstagramBinding {
    /// Creates a resolved Instagram user/token binding.
    pub fn new(user_id: MetaNumericId, access_token: MetaAccessToken) -> (r: Self)
        ensures
            r@ == (user_id@, access_token@),
    {
        InstagramBinding { user_id, access_token }
    }

    /// Returns the resolved Instagram user identifier.
    pub fn user_id(&self) -> (r: &MetaNumericId)
        ensures
            r@ == self@.0,
    {
        &self.user_id
    }

    /// Returns the resolved access token, for the transport's authorization.
    pub fn access_token(&self) -> (r: &MetaAccessToken)
        ensures
            r@ == self@.1,
    {
        &self.access_token
    }

    /// The debug rendering: the user identifier and a redacted token.
    pub fn redacted_debug(&self) -> (r: String)
        ensures
            r@ == "InstagramBinding { user_id: MetaNumericId(\""@ + self@.0
                + "\"), access_token: MetaAccessToken([REDACTED]) }"@,
    {
        let mut out = String::from_str("InstagramBinding { user_id: MetaNumericId(\"");
        out.append(self.user_id.as_str());
        out.append("\"), access_token: MetaAccessToken([REDACTED]) }");
        out
    }
}

/// Validates the production Instagram Graph API base (what
/// `ReqwestInstagramTransport::new` uses).
pub fn default_api_base() -> (r: Result<GraphApiBase, MetaTransportConfigError>)
    ensures
        match r {
            Ok(base) => api_base_error(url_parse_result(DEFAULT_API_BASE@)) is None && base@
                == DEFAULT_API_BASE@,
            Err(e) => api_base_error(url_parse_result(DEFAULT_API_BASE@)) == Some(e),
        },
{
    validated_api_base(DEFAULT_API_BASE)
}

/// The two Graph operations of the publish flow.
#[derive(Clone, Copy, Debug, PartialEq, Eq, Structural)]
pub enum InstagramOperation {
    /// `media`: create an unpublished container.
    CreateContainer,
    /// `media_publish`: publish a container.
    PublishContainer,
}

/// The path segment of an operation.
pub open spec fn operation_segment(operation: InstagramOperation) -> Seq<char> {
    match operation {
        InstagramOperation::CreateContainer => "media"@,
        InstagramOperation::PublishContainer => "media_publish"@,
    }
}

impl InstagramOperation {
    /// The path segment of the operation.
    pub fn segment(&self) -> (r: &'static str)
        ensures
            r@ == operation_segment(*self),
            all_ascii(r@),
            r@.len() <= 16,
    {
        match self {
            InstagramOperation::CreateContainer => {
                proof {
                    reveal_strlit("media");
                    assert(all_ascii("media"@));
                }
                "media"
            },
            InstagramOperation::PublishContainer => {
                proof {
                    reveal_strlit("media_publish");
                    assert(all_ascii("media_publish"@));
                }
                "media_publish"
            },
        }
    }
}

/// The operation endpoint `{base}/{user_id}/{operation}`.
pub fn endpoint(base: &GraphApiBase, user_id: &MetaNumericId, operation: InstagramOperation) -> (r:
    String)
    requires
        has_endpoint_room(base),
    ensures
        url_with_segments(base@, user_id@, operation_segment(operation)) == Some(r@),
{
    let segment = operation.segment();
    let id = user_id.as_str();
    proof {
        lemma_endpoint_room(base, user_id@, segment@);
    }
    base.endpoint(id, segment)
}

/// The form fields of a name/value list.
pub open spec fn form_view(form: Seq<(String, String)>) -> Seq<(Seq<char>, Seq<char>)> {
    form.map_values(|f: (String, String)| (f.0@, f.1@))
}

/// The container-creation form: the image URL, then the caption when given.
pub fn container_form(image_url: &PublicMediaUrl, caption: Option<&str>) -> (r: Vec<(String, String)>)
    ensures
        form_view(r@) == match caption {
            Some(c) => seq![("image_url"@, image_url@), ("caption"@, c@)],
            None => seq![("image_url"@, image_url@)],
        },
{
    let mut form = Vec::new();
    form.push((String::from_str("image_url"), String::from_str(image_url.as_str())));
    match caption {
        Some(c) => {
            form.push((String::from_str("caption"), String::from_str(c)));
        },
        None => {},
    }
    assert(form_view(form@) =~= match caption {
        Some(c) => seq![("image_url"@, image_url@), ("caption"@, c@)],
        None => seq![("image_url"@, image_url@)],
    });
    form
}

/// The container-publish form: the container's identifier as `creation_id`.
pub fn publish_form(container_id: &MetaExternalId) -> (r: Vec<(String, String)>)
    ensures
        form_view(r@) == seq![("creation_id"@, container_id@)],
{
    let mut form = Vec::new();
    form.push((String::from_str("creation_id"), String::from_str(container_id.as_str())));
    assert(form_view(form@) =~= seq![("creation_id"@, container_id@)]);
    form
}

/// The capability snapshot: one-image feed posts with optional caption, no
/// alt text, no native idempotency.
pub fn capabilities() -> (r: ProviderCapabilities)
    ensures
        r.provider_id@ == INSTAGRAM_PROVIDER_ID@,
        opt_view(r.revision) == Some("instagram-feed.single-image-v1"@),
        r.formats@ == seq![PublicationFormat::Post],
        r.text == (TextCapabilities { supported: true, max_characters: None }),
        r.media.supported_kinds@ == seq![MediaKind::Image],
        r.media.max_items == Some(1u32),
        !r.media.mixed_kinds,
        r.media.alt_text == (AltTextCapabilities { supported: false, max_characters: None }),
        r.extensions@.len() == 1,
        extension_is_bool(r.extensions@[0], "meta.instagram.native_idempotency"@, false),
{
    let mut extensions = Vec::new();
    extensions.push(bool_extension("meta.instagram.native_idempotency", false));
    let mut formats = Vec::new();
    formats.push(PublicationFormat::Post);
    let mut kinds = Vec::new();
    kinds.push(MediaKind::Image);
    ProviderCapabilities {
        provider_id: String::from_str(INSTAGRAM_PROVIDER_ID),
        revision: Some(String::from_str("instagram-feed.single-image-v1")),
        formats,
        text: TextCapabilities { supported: true, max_characters: None },
        media: MediaCapabilities {
            supported_kinds: kinds,
            max_items: Some(1),
            mixed_kinds: false,
            alt_text: AltTextCapabilities { supported: false, max_characters: None },
        },
        extensions,
    }
}

/// The request's media is exactly one image.
pub open spec fn is_single_image(media: Seq<MediaKind>) -> bool {
    media.len() == 1 && media[0] == MediaKind::Image
}

fn single_image_check(media: &Vec<MediaKind>) -> (r: bool)
    ensures
        r == is_single_image(media@),
{
    media.len() == 1 && match media[0] {
        MediaKind::Image => true,
        _ => false,
    }
}

/// The detail key under which the container identifier is reported.
pub open spec fn container_id_key() -> Seq<char> {
    "meta.instagram.container_id"@
}

/// Delivery class of a failed call: transient or unreadable answers are
/// retryable before the public `media_publish` stage and leave the outcome
/// unknown during it.
pub open spec fn stage_error_class(kind: MetaTransportErrorKind, public_stage: bool) -> DeliveryErrorClass {
    match kind {
        MetaTransportErrorKind::Authentication => DeliveryErrorClass::AuthRequired,
        MetaTransportErrorKind::RateLimited => DeliveryErrorClass::RateLimited,
        MetaTransportErrorKind::Rejected => DeliveryErrorClass::ProviderRejected,
        _ => if public_stage {
            DeliveryErrorClass::OutcomeUnknown
        } else {
            DeliveryErrorClass::Retryable
        },
    }
}

/// Message of a failed call of the given class.
pub open spec fn stage_error_message(class: DeliveryErrorClass) -> Seq<char> {
    match class {
        DeliveryErrorClass::AuthRequired => "Instagram authorization is missing, expired, or insufficient"@,
        DeliveryErrorClass::RateLimited => "Instagram publishing is rate limited"@,
        DeliveryErrorClass::ProviderRejected => "Instagram rejected the publishing request"@,
        DeliveryErrorClass::Retryable => "Instagram media container creation failed before a public action"@,
        DeliveryErrorClass::OutcomeUnknown => "Instagram publish outcome is unknown; reconcile the container before retrying"@,
        _ => "Instagram publishing failed"@,
    }
}

/// The delivery error a transport failure becomes: the transport's code and
/// retry guidance are kept, and the container identifier, when given, is
/// attached as a detail.
pub open spec fn mapped_stage_error(
    e: TransportErrorView,
    public_stage: bool,
    container_id: Option<Seq<char>>,
) -> DeliveryErrorView {
    let class = stage_error_class(e.kind, public_stage);
    DeliveryErrorView {
        class,
        code: e.code,
        message: stage_error_message(class),
        retry_after_seconds: e.retry_after_seconds,
        details: match container_id {
            Some(id) => seq![(container_id_key(), id)],
            None => seq![],
        },
    }
}

/// Maps a transport failure of either stage to a delivery error.
pub fn map_error(
    error: MetaTransportError,
    public_stage: bool,
    container_id: Option<&MetaExternalId>,
) -> (r: DeliveryError)
    ensures
        r@ == mapped_stage_error(
            error@,
            public_stage,
            match container_id {
                Some(id) => Some(id@),
                None => None,
            },
        ),
{
    let class = match error.kind {
        MetaTransportErrorKind::Authentication => DeliveryErrorClass::AuthRequired,
        MetaTransportErrorKind::RateLimited => DeliveryErrorClass::RateLimited,
        MetaTransportErrorKind::Rejected => DeliveryErrorClass::ProviderRejected,
        MetaTransportErrorKind::Transient | MetaTransportErrorKind::InvalidResponse => {
            if public_stage {
                DeliveryErrorClass::OutcomeUnknown
            } else {
                DeliveryErrorClass::Retryable
            }
        },
    };
    let message = match class {
        DeliveryErrorClass::AuthRequired => "Instagram authorization is missing, expired, or insufficient",
        DeliveryErrorClass::RateLimited => "Instagram publishing is rate limited",
        DeliveryErrorClass::ProviderRejected => "Instagram rejected the publishing request",
        DeliveryErrorClass::Retryable => "Instagram media container creation failed before a public action",
        DeliveryErrorClass::OutcomeUnknown => "Instagram publish outcome is unknown; reconcile the container before retrying",
        DeliveryErrorClass::InvalidRequest | DeliveryErrorClass::Terminal => "Instagram publishing failed",
    };
    let mut mapped = DeliveryError::new(class, error.code.as_str(), message);
    match error.retry_after_seconds {
        Some(seconds) => {
            mapped = mapped.with_retry_after(seconds);
        },
        None => {},
    }
    match container_id {
        Some(id) => {
            mapped = mapped.with_detail("meta.instagram.container_id", id.as_str());
            proof {
                reveal_strlit("meta.instagram.container_id");
            }
        },
        None => {},
    }
    mapped
}

/// Maps a failure of container creation (nothing public yet).
pub fn map_container_error(error: MetaTransportError) -> (r: DeliveryError)
    ensures
        r@ == mapped_stage_error(error@, false, None),
{
    map_error(error, false, None)
}

/// Maps a failure of `media_publish` for the given container.
pub fn map_publish_error(error: MetaTransportError, container_id: &MetaExternalId) -> (r: DeliveryError)
    ensures
        r@ == mapped_stage_error(error@, true, Some(container_id@)),
{
    map_error(error, true, Some(container_id))
}

/// The error of a request without a credential reference.
pub open spec fn credential_required_error() -> DeliveryErrorView {
    plain_delivery_error(
        DeliveryErrorClass::AuthRequired,
        "instagram.credential.required"@,
        "Instagram publishing requires a configured credential reference"@,
    )
}

/// The error of a request whose media is not exactly one image.
pub open spec fn single_image_required_error() -> DeliveryErrorView {
    plain_delivery_error(
        DeliveryErrorClass::InvalidRequest,
        "instagram.media.single_image_required"@,
        "this Instagram adapter requires exactly one image"@,
    )
}

/// The error returned when a request carries no credential reference.
pub fn credential_required() -> (r: DeliveryError)
    ensures
        r@ == credential_required_error(),
{
    DeliveryError::new(
        DeliveryErrorClass::AuthRequired,
        "instagram.credential.required",
        "Instagram publishing requires a configured credential reference",
    )
}

/// Checks that the request's media is exactly one image.
pub fn single_image(media: &Vec<MediaKind>) -> (r: Result<(), DeliveryError>)
    ensures
        match r {
            Ok(()) => is_single_image(media@),
            Err(e) => !is_single_image(media@) && e@ == single_image_required_error(),
        },
{
    if single_image_check(media) {
        Ok(())
    } else {
        Err(
            DeliveryError::new(
                DeliveryErrorClass::InvalidRequest,
                "instagram.media.single_image_required",
                "this Instagram adapter requires exactly one image",
            ),
        )
    }
}

/// The caption sent with the image: the request's text unless it is blank.
pub open spec fn caption_of(text: Option<Seq<char>>) -> Option<Seq<char>> {
    match text {
        Some(t) => if has_visible_text(t) {
            Some(t)
        } else {
            None
        },
        None => None,
    }
}

/// What the publish decisions read from a Prism publish request.
pub struct InstagramPublishRequest {
    /// Whether the target carries a credential reference.
    pub has_credential: bool,
    /// The kinds of the variant's media items, in order.
    pub media: Vec<MediaKind>,
    /// The variant's body text, if any.
    pub text: Option<String>,
}

/// What happened since the last action.
pub enum InstagramPublishEvent {
    /// The request arrived.
    Start,
    /// The binding resolver answered; on success the caller keeps the binding.
    BindingResolved(Result<(), DeliveryError>),
    /// The media resolver answered for the single image; on success the
    /// caller keeps the public URL.
    MediaResolved(Result<(), DeliveryError>),
    /// The transport answered container creation.
    ContainerCreated(Result<MetaExternalId, MetaTransportError>),
    /// The transport answered `media_publish` of the given container.
    ContainerPublished {
        container_id: MetaExternalId,
        result: Result<MetaExternalId, MetaTransportError>,
    },
}

/// What the caller does next.
pub enum InstagramPublishAction {
    /// Resolve the channel/credential binding.
    ResolveBinding,
    /// Resolve the single image's media reference to a public URL.
    ResolveMedia,
    /// Create an unpublished image container with this caption.
    CreateContainer { caption: Option<String> },
    /// Publish this container.
    PublishContainer(MetaExternalId),
    /// Return this result.
    Finish(Result<ProviderReceipt, DeliveryError>),
}

fn caption(text: &Option<String>) -> (r: Option<String>)
    ensures
        opt_view(r) == caption_of(opt_view(*text)),
{
    match text {
        Some(t) => if str_has_visible_text(t.as_str()) {
            Some(t.clone())
        } else {
            None
        },
        None => None,
    }
}

/// The next action of the two-stage publish: resolve the binding (a
/// credential is required), check for exactly one image, resolve its URL,
/// create the container (caption = non-blank text), publish it, then report
/// the receipt (with the container identifier as a detail) or the
/// stage-mapped transport error.
pub fn publish_step(request: &InstagramPublishRequest, event: InstagramPublishEvent) -> (r:
    InstagramPublishAction)
    ensures
        event is Start ==> if request.has_credential {
            r is ResolveBinding
        } else {
            r matches InstagramPublishAction::Finish(Err(e)) && e@ == credential_required_error()
        },
        event matches InstagramPublishEvent::BindingResolved(Err(e)) ==> r matches InstagramPublishAction::Finish(Err(e2)) && e2@ == e@,
        event matches InstagramPublishEvent::BindingResolved(Ok(_)) ==> if is_single_image(request.media@) {
            r is ResolveMedia
        } else {
            r matches InstagramPublishAction::Finish(Err(e)) && e@ == single_image_required_error()
        },
        event matches InstagramPublishEvent::MediaResolved(Err(e)) ==> r matches InstagramPublishAction::Finish(Err(e2)) && e2@ == e@,
        event matches InstagramPublishEvent::MediaResolved(Ok(_)) ==> r matches InstagramPublishAction::CreateContainer { caption } && opt_view(caption) == caption_of(opt_view(request.text)),
        event matches InstagramPublishEvent::ContainerCreated(Ok(id)) ==> r matches InstagramPublishAction::PublishContainer(c) && c@ == id@,
        event matches InstagramPublishEvent::ContainerCreated(Err(e)) ==> r matches InstagramPublishAction::Finish(Err(d)) && d@ == mapped_stage_error(e@, false, None),
        event matches InstagramPublishEvent::ContainerPublished { container_id, result: Ok(id) } ==> r matches InstagramPublishAction::Finish(Ok(receipt)) && receipt@ == receipt_view(id@, seq![(container_id_key(), container_id@)]),
        event matches InstagramPublishEvent::ContainerPublished { container_id, result: Err(e) } ==> r matches InstagramPublishAction::Finish(Err(d)) && d@ == mapped_stage_error(e@, true, Some(container_id@)),
{
    match event {
        InstagramPublishEvent::Start => {
            if request.has_credential {
                InstagramPublishAction::ResolveBinding
            } else {
                InstagramPublishAction::Finish(Err(credential_required()))
            }
        },
        InstagramPublishEvent::BindingResolved(Err(e)) => InstagramPublishAction::Finish(Err(e)),
        InstagramPublishEvent::BindingResolved(Ok(())) => match single_image(&request.media) {
            Ok(()) => InstagramPublishAction::ResolveMedia,
            Err(e) => InstagramPublishAction::Finish(Err(e)),
        },
        InstagramPublishEvent::MediaResolved(Err(e)) => InstagramPublishAction::Finish(Err(e)),
        InstagramPublishEvent::MediaResolved(Ok(())) => InstagramPublishAction::CreateContainer {
            caption: caption(&request.text),
        },
        InstagramPublishEvent::ContainerCreated(Ok(id)) => InstagramPublishAction::PublishContainer(id),
        InstagramPublishEvent::ContainerCreated(Err(e)) => InstagramPublishAction::Finish(
            Err(map_container_error(e)),
        ),
        InstagramPublishEvent::ContainerPublished { container_id, result: Ok(id) } => {
            let mut receipt = plain_receipt(id.as_str());
            let ghost before = receipt.details@;
            receipt.details.push(
                Detail {
                    key: String::from_str("meta.instagram.container_id"),
                    value: String::from_str(container_id.as_str()),
                },
            );
            proof {
                reveal_strlit("meta.instagram.container_id");
                assert(details_view(receipt.details@) =~= seq![(container_id_key(), container_id@)]);
            }
            InstagramPublishAction::Finish(Ok(receipt))
        },
        InstagramPublishEvent::ContainerPublished { container_id, result: Err(e) } => {
            InstagramPublishAction::Finish(Err(map_publish_error(e, &container_id)))
        },
    }
}

/// What validation reads from a Prism publish request.
pub struct InstagramValidateRequest {
    /// The target's identifier, as it appears in request paths.
    pub target_id: String,
    /// The variant's identifier, as it appears in request paths.
    pub variant_id: String,
    /// Whether the target carries a credential reference.
    pub has_credential: bool,
    /// The keys of the target's provider options, in request order.
    pub option_keys: Vec<String>,
    /// The kinds of the variant's media items, in order.
    pub media: Vec<MediaKind>,
}

/// The issue reported for a missing credential.
pub open spec fn credential_issue(target_id: Seq<char>) -> IssueView {
    (
        "instagram.credential.required"@,
        "/targets/"@ + target_id + "/credential"@,
        "Instagram publishing requires a configured credential reference"@,
    )
}

/// The issue reported for one provider option.
pub open spec fn option_issue(target_id: Seq<char>, key: Seq<char>) -> IssueView {
    (
        "instagram.option.unsupported"@,
        "/targets/"@ + target_id + "/options/"@ + key,
        "this Instagram adapter version does not implement provider options"@,
    )
}

/// The issue reported when the media is not exactly one image.
pub open spec fn media_issue(variant_id: Seq<char>) -> IssueView {
    (
        "instagram.media.single_image_required"@,
        "/variants/"@ + variant_id + "/body/media"@,
        "this Instagram adapter requires exactly one image"@,
    )
}

/// Validation issues: a missing credential, one per provider option (this
/// adapter supports none), then media that is not exactly one image.
pub open spec fn expected_issues(
    target_id: Seq<char>,
    variant_id: Seq<char>,
    has_credential: bool,
    keys: Seq<Seq<char>>,
    media: Seq<MediaKind>,
) -> Seq<IssueView> {
    (if has_credential {
        seq![]
    } else {
        seq![credential_issue(target_id)]
    }) + keys.map_values(|k: Seq<char>| option_issue(target_id, k)) + (if is_single_image(media) {
        seq![]
    } else {
        seq![media_issue(variant_id)]
    })
}

/// The issues of a request, as the specification lists them.
pub open spec fn request_issues(request: &InstagramValidateRequest) -> Seq<IssueView> {
    expected_issues(
        request.target_id@,
        request.variant_id@,
        request.has_credential,
        strings_view(request.option_keys@),
        request.media@,
    )
}

/// Computes the validation issues of a request.
pub fn validation_issues(request: &InstagramValidateRequest) -> (r: Vec<ValidationIssue>)
    ensures
        issues_view(r@) == request_issues(request),
{
    let mut issues: Vec<ValidationIssue> = Vec::new();
    if !request.has_credential {
        let mut path = String::from_str("/targets/");
        path.append(request.target_id.as_str());
        path.append("/credential");
        issues.push(
            ValidationIssue::error(
                "instagram.credential.required",
                path,
                "Instagram publishing requires a configured credential reference",
            ),
        );
    }
    let ghost head = issues_view(issues@);
    let ghost keys = strings_view(request.option_keys@);
    assert(head =~= (if request.has_credential {
        seq![]
    } else {
        seq![credential_issue(request.target_id@)]
    }));
    let n = request.option_keys.len();
    for i in 0..n
        invariant
            n == request.option_keys@.len(),
            keys == strings_view(request.option_keys@),
            issues_view(issues@) =~= head + keys.take(i as int).map_values(
                |k: Seq<char>| option_issue(request.target_id@, k),
            ),
    {
        let mut path = String::from_str("/targets/");
        path.append(request.target_id.as_str());
        path.append("/options/");
        path.append(request.option_keys[i].as_str());
        let ghost before = issues@;
        issues.push(
            ValidationIssue::error(
                "instagram.option.unsupported",
                path,
                "this Instagram adapter version does not implement provider options",
            ),
        );
        assert(issues@ =~= before.push(issues@.last()));
        assert(issues_view(issues@) =~= issues_view(before).push(issues@.last()@));
        assert(keys.take(i + 1) =~= keys.take(i as int).push(keys[i as int]));
    }
    assert(keys.take(n as int) =~= keys);
    let ghost mid = issues_view(issues@);
    if !single_image_check(&request.media) {
        let mut path = String::from_str("/variants/");
        path.append(request.variant_id.as_str());
        path.append("/body/media");
        issues.push(
            ValidationIssue::error(
                "instagram.media.single_image_required",
                path,
                "this Instagram adapter requires exactly one image",
            ),
        );
        assert(issues_view(issues@) =~= mid.push(media_issue(request.variant_id@)));
    }
    issues
}

/// What happened since the last validation action.
pub enum InstagramValidateEvent {
    /// The request arrived.
    Start,
    /// The binding resolver answered.
    BindingResolved(Result<(), DeliveryError>),
    /// The media resolver answered for the single image.
    MediaResolved(Result<(), DeliveryError>),
}

/// What the validating caller does next.
pub enum InstagramValidateAction {
    /// Resolve the binding, to prove it exists, without publishing.
    ResolveBinding,
    /// Resolve the single image's URL, without publishing.
    ResolveMedia,
    /// Return this result.
    Finish(Result<Vec<ValidationIssue>, DeliveryError>),
}

/// The next action of validation: report the issues if there are any;
/// otherwise resolve the binding, then the image URL, and report the first
/// failure, if any.
pub fn validate_step(request: &InstagramValidateRequest, event: InstagramValidateEvent) -> (r:
    InstagramValidateAction)
    ensures
        event is Start ==> if request_issues(request).len() == 0 {
            r is ResolveBinding
        } else {
            r matches InstagramValidateAction::Finish(Ok(issues)) && issues_view(issues@) == request_issues(request)
        },
        event matches InstagramValidateEvent::BindingResolved(Ok(_)) ==> r is ResolveMedia,
        event matches InstagramValidateEvent::BindingResolved(Err(e)) ==> r matches InstagramValidateAction::Finish(Err(e2)) && e2@ == e@,
        event matches InstagramValidateEvent::MediaResolved(Ok(_)) ==> r matches InstagramValidateAction::Finish(Ok(issues)) && issues_view(issues@) == request_issues(request),
        event matches InstagramValidateEvent::MediaResolved(Err(e)) ==> r matches InstagramValidateAction::Finish(Err(e2)) && e2@ == e@,
{
    match event {
        InstagramValidateEvent::Start => {
            let issues = validation_issues(request);
            if issues.len() == 0 {
                InstagramValidateAction::ResolveBinding
            } else {
                InstagramValidateAction::Finish(Ok(issues))
            }
        },
        InstagramValidateEvent::BindingResolved(Ok(())) => InstagramValidateAction::ResolveMedia,
        InstagramValidateEvent::BindingResolved(Err(e)) => InstagramValidateAction::Finish(Err(e)),
        InstagramValidateEvent::MediaResolved(Ok(())) => InstagramValidateAction::Finish(
            Ok(validation_issues(request)),
        ),
        InstagramValidateEvent::MediaResolved(Err(e)) => InstagramValidateAction::Finish(Err(e)),
    }
}

/// Law: container creation makes nothing public, so a transient or
/// unreadable answer to it is retryable; the same answer to `media_publish`
/// leaves the outcome unknown and names the container to reconcile. Every
/// other failure is classified alike in both stages, and both stages keep the
/// transport's code and retry guidance.
pub proof fn lemma_only_the_public_stage_is_ambiguous(e: TransportErrorView, container_id: Seq<char>)
    ensures
        ({
            let created = mapped_stage_error(e, false, None);
            let published = mapped_stage_error(e, true, Some(container_id));
            &&& created.code == e.code && published.code == e.code
            &&& created.retry_after_seconds == e.retry_after_seconds
            &&& published.retry_after_seconds == e.retry_after_seconds
            &&& created.details.len() == 0
            &&& published.details == seq![(container_id_key(), container_id)]
            &&& (e.kind == MetaTransportErrorKind::Transient || e.kind
                == MetaTransportErrorKind::InvalidResponse) ==> created.class
                == DeliveryErrorClass::Retryable && published.class
                == DeliveryErrorClass::OutcomeUnknown
            &&& !(e.kind == MetaTransportErrorKind::Transient || e.kind
                == MetaTransportErrorKind::InvalidResponse) ==> created.class == published.class
                && created.class != DeliveryErrorClass::Retryable && created.class
                != DeliveryErrorClass::OutcomeUnknown
        }),
{
}

/// Law: a Graph error answer keeps its meaning in both stages:
/// authentication failures require authorization and throttling stays rate
/// limited; a 5xx answer is retryable during container creation and leaves
/// the outcome unknown during `media_publish`.
pub proof fn lemma_graph_errors_keep_their_meaning(
    provider: Seq<char>,
    status: u16,
    graph: Option<GraphError>,
    retry_after_seconds: Option<u64>,
    container_id: Seq<char>,
)
    ensures
        ({
            let e = classified_graph_error(provider, status, graph, retry_after_seconds);
            let g = graph_error_or_default(graph);
            let created = mapped_stage_error(e, false, None);
            let published = mapped_stage_error(e, true, Some(container_id));
            &&& (status == 401 || status == 403 || g.code == Some(190i64)) ==> created.class
                == DeliveryErrorClass::AuthRequired && published.class
                == DeliveryErrorClass::AuthRequired
            &&& !(status == 401 || status == 403 || g.code == Some(190i64)) && (status == 429
                || is_rate_limit_code(g.code)) ==> created.class == DeliveryErrorClass::RateLimited
                && published.class == DeliveryErrorClass::RateLimited
            &&& graph_error_kind(status, g) == MetaTransportErrorKind::Transient ==> created.class
                == DeliveryErrorClass::Retryable && published.class
                == DeliveryErrorClass::OutcomeUnknown
            &&& created.retry_after_seconds == retry_after_seconds
            &&& published.retry_after_seconds == retry_after_seconds
        }),
{
}

/// Law: provider options are never accepted by the Instagram publish: a request
/// passes validation (and reaches binding resolution) only when it has a
/// credential and no options.
pub proof fn lemma_options_and_missing_credentials_block_validation(
    target_id: Seq<char>,
    variant_id: Seq<char>,
    media: Seq<MediaKind>,
    has_credential: bool,
    keys: Seq<Seq<char>>,
)
    ensures
        expected_issues(target_id, variant_id, has_credential, keys, media).len() == 0 ==> has_credential && keys.len() == 0,
        expected_issues(target_id, variant_id, has_credential, keys, media).len() >= keys.len(),
{
}

/// Law: the container caption is the request text, unchanged, whenever the
/// text holds a character that is not white space (spaces inside it
/// included), and no caption at all when the text is blank or absent.
pub proof fn lemma_caption_keeps_non_blank_text(t: Seq<char>, i: int)
    ensures
        0 <= i < t.len() && !crate::text::is_unicode_whitespace(t[i]) ==> caption_of(Some(t))
            == Some(t),
        (forall|j: int| 0 <= j < t.len() ==> crate::text::is_unicode_whitespace(#[trigger] t[j]))
            ==> caption_of(Some(t)) is None,
        caption_of(None) is None,
{
}

/// Law: validation passes only a request whose media is exactly one image,
/// reports the single-image issue exactly when it is not, and so accepts the
/// same media as the publish flow.
pub proof fn lemma_validation_passes_only_single_images(
    target_id: Seq<char>,
    variant_id: Seq<char>,
    has_credential: bool,
    keys: Seq<Seq<char>>,
    media: Seq<MediaKind>,
)
    ensures
        expected_issues(target_id, variant_id, has_credential, keys, media).len() == 0 ==> media.len()
            == 1 && media[0] == MediaKind::Image,
        !(media.len() == 1 && media[0] == MediaKind::Image) ==> expected_issues(
            target_id,
            variant_id,
            has_credential,
            keys,
            media,
        ).last() == media_issue(variant_id),
        (media.len() == 1 && media[0] == MediaKind::Image) ==> expected_issues(
            target_id,
            variant_id,
            has_credential,
            keys,
            media,
        ).len() == (if has_credential { 0int } else { 1int }) + keys.len(),
        is_single_image(media) <==> (media.len() == 1 && media[0] == MediaKind::Image),
{
}

} // verus!
