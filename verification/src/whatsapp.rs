//! WhatsApp Business Platform individual text messages: recipients, bindings,
//! endpoint, capability snapshot, validation and the send decisions.
use vstd::prelude::*;

use crate::delivery::{
    bool_extension, extension_is_bool, extension_is_text, issues_view, opt_view,
    plain_delivery_error, plain_receipt, receipt_view, strings_view, text_extension,
    AltTextCapabilities, DeliveryError, DeliveryErrorClass, DeliveryErrorView, IssueView,
    MediaCapabilities, ProviderCapabilities, ProviderReceipt, PublicationFormat, TextCapabilities,
    ValidationIssue,
};
use crate::graph_url::{
    has_endpoint_room, lemma_endpoint_room, api_base_error, url_parse_result, url_with_segments, validated_api_base, GraphApiBase,
    MetaTransportConfigError,
};
use crate::text::{all_ascii, 
    all_ascii_digits, has_visible_text, lemma_ascii_digits_utf8_len, parsed_u64,
    str_all_ascii_digits, str_has_visible_text,
};
use crate::transport_error::{
    classified_graph_error, classify_graph_error, graph_error_kind, graph_error_or_default,
    header_view, is_rate_limit_code, retry_after_from_header, GraphError, MetaTransportError,
    MetaTransportErrorKind, TransportErrorView,
};
use crate::values::{
    valid_external_id, MetaAccessToken, MetaExternalId, MetaNumericId, MetaValueError,
};

verus! {

/// Stable Prism provider identifier for WhatsApp Business Platform.
pub const WHATSAPP_PROVIDER_ID: &'static str = "meta.whatsapp";

/// The production Graph API base used when none is given.
pub const DEFAULT_API_BASE: &'static str = "https://graph.facebook.com/v26.0/";

/// A recipient is 5 to 32 ASCII digits.
pub open spec fn valid_recipient(s: Seq<char>) -> bool {
    &&& 5 <= s.len() <= 32
    &&& all_ascii_digits(s)
}

/// Canonical recipient identifier for one individual WhatsApp destination.
#[derive(Debug, PartialEq, Eq)]
pub struct WhatsAppRecipient(String);

impl View for WhatsAppRecipient {
    type V = Seq<char>;

    closed spec fn view(&self) -> Seq<char> {
        self.0@
    }
}

impl Clone for WhatsAppRecipient {
    fn clone(&self) -> (r: Self)
        ensures
            r@ == self@,
    {
        proof {
            use_type_invariant(self);
        }
        WhatsAppRecipient(self.0.clone())
    }
}

impl WhatsAppRecipient {
    #[verifier::type_invariant]
    spec fn wf(self) -> bool {
        valid_recipient(self.0@)
    }

    /// Creates a canonical digits-only recipient identifier.
    pub fn new(value: &str) -> (r: Result<Self, MetaValueError>)
        ensures
            match r {
                Ok(recipient) => valid_recipient(value@) && recipient@ == value@,
                Err(e) => !valid_recipient(value@) && e == MetaValueError::InvalidRecipient,
            },
    {
        let n = value.as_bytes().len();
        if n < 5 || n > 32 || !str_all_ascii_digits(value) {
            proof {
                if all_ascii_digits(value@) {
                    lemma_ascii_digits_utf8_len(value@);
                }
            }
            return Err(MetaValueError::InvalidRecipient);
        }
        proof {
            lemma_ascii_digits_utf8_len(value@);
        }
        Ok(WhatsAppRecipient(String::from_str(value)))
    }

    /// Returns the provider recipient identifier.
    pub fn as_str(&self) -> (r: &str)
        ensures
            r@ == self@,
            valid_recipient(self@),
    {
        proof {
            use_type_invariant(self);
        }
        self.0.as_str()
    }
}

/// Resolved WhatsApp sender/recipient/token binding.
pub struct WhatsAppBinding {
    phone_number_id: MetaNumericId,
    recipient: WhatsAppRecipient,
    access_token: MetaAccessToken,
}

impl View for WhatsAppBinding {
    type V = (Seq<char>, Seq<char>, Seq<char>);

    /// The sender phone-number identifier, the recipient and the token.
    closed spec fn view(&self) -> (Seq<char>, Seq<char>, Seq<char>) {
        (self.phone_number_id@, self.recipient@, self.access_token@)
    }
}

impl WhatsAppBinding {
    /// Creates a configured outbound individual-message binding.
    pub fn new(
        phone_number_id: MetaNumericId,
        recipient: WhatsAppRecipient,
        access_token: MetaAccessToken,
    ) -> (r: Self)
        ensures
            r@ == (phone_number_id@, recipient@, access_token@),
    {
        WhatsAppBinding { phone_number_id, recipient, access_token }
    }

    /// Returns the sender phone-number identifier.
    pub fn phone_number_id(&self) -> (r: &MetaNumericId)
        ensures
            r@ == self@.0,
    {
        &self.phone_number_id
    }

    /// Returns the configured individual recipient.
    pub fn recipient(&self) -> (r: &WhatsAppRecipient)
        ensures
            r@ == self@.1,
    {
        &self.recipient
    }

    /// Returns the resolved access token, for the transport's authorization.
    pub fn access_token(&self) -> (r: &MetaAccessToken)
        ensures
            r@ == self@.2,
    {
        &self.access_token
    }

    /// The debug rendering: sender, recipient and a redacted token.
    pub fn redacted_debug(&self) -> (r: String)
        ensures
            r@ == "WhatsAppBinding { phone_number_id: MetaNumericId(\""@ + self@.0
                + "\"), recipient: WhatsAppRecipient(\""@ + self@.1
                + "\"), access_token: MetaAccessToken([REDACTED]) }"@,
    {
        let mut out = String::from_str("WhatsAppBinding { phone_number_id: MetaNumericId(\"");
        out.append(self.phone_number_id.as_str());
        out.append("\"), recipient: WhatsAppRecipient(\"");
        out.append(self.recipient.as_str());
        out.append("\"), access_token: MetaAccessToken([REDACTED]) }");
        out
    }
}

/// Validates the production Graph API base (what `ReqwestWhatsAppTransport::new` uses).
pub fn default_api_base() -> (r: Result<GraphApiBase, MetaTransportConfigError>)
    ensures
        match r {
            Ok(base) => api_base_error(url_parse_result(DEFAULT_API_BASE@)) is None && base@
                == DEFAULT_API_BASE@,
            Err(e) => api_base_error(url_parse_result(DEFAULT_API_BASE@)) == Some(e),
        },
{
    validated_api_base(DEFAULT_API_BASE)
}

/// The messages endpoint `{base}/{phone_number_id}/messages`.
pub fn messages_endpoint(base: &GraphApiBase, phone_number_id: &MetaNumericId) -> (r: String)
    requires
        has_endpoint_room(base),
    ensures
        url_with_segments(base@, phone_number_id@, "messages"@) == Some(r@),
{
    let id = phone_number_id.as_str();
    proof {
        reveal_strlit("messages");
        assert(all_ascii("messages"@));
        lemma_endpoint_room(base, phone_number_id@, "messages"@);
    }
    base.endpoint(id, "messages")
}

/// The fields of one individual text-message request body, as plain values.
pub struct MessagePayload {
    /// `messaging_product`, always `whatsapp`.
    pub messaging_product: String,
    /// `recipient_type`, always `individual`.
    pub recipient_type: String,
    /// `to`: the recipient bound to the channel.
    pub to: String,
    /// `type`, always `text`.
    pub message_type: String,
    /// `text.preview_url`, always off.
    pub preview_url: bool,
    /// `text.body`: the message text.
    pub body: String,
}

/// The request body of a send: a WhatsApp text message for the binding's
/// recipient, individual recipient type, link preview off, with `text` as body.
pub fn message_payload(binding: &WhatsAppBinding, text: &str) -> (r: MessagePayload)
    ensures
        r.messaging_product@ == "whatsapp"@,
        r.recipient_type@ == "individual"@,
        r.to@ == binding@.1,
        r.message_type@ == "text"@,
        !r.preview_url,
        r.body@ == text@,
{
    MessagePayload {
        messaging_product: String::from_str("whatsapp"),
        recipient_type: String::from_str("individual"),
        to: String::from_str(binding.recipient().as_str()),
        message_type: String::from_str("text"),
        preview_url: false,
        body: String::from_str(text),
    }
}

/// The capability snapshot: individual text messages, no media, no native
/// idempotency.
pub fn capabilities() -> (r: ProviderCapabilities)
    ensures
        r.provider_id@ == WHATSAPP_PROVIDER_ID@,
        opt_view(r.revision) == Some("whatsapp-cloud.individual-text-v1"@),
        r.formats@ == seq![PublicationFormat::Message],
        r.text == (TextCapabilities { supported: true, max_characters: None }),
        r.media.supported_kinds@.len() == 0,
        r.media.max_items == Some(0u32),
        !r.media.mixed_kinds,
        r.media.alt_text == (AltTextCapabilities { supported: false, max_characters: None }),
        r.extensions@.len() == 2,
        extension_is_bool(r.extensions@[0], "meta.whatsapp.native_idempotency"@, false),
        extension_is_text(r.extensions@[1], "meta.whatsapp.recipient_type"@, "individual"@),
{
    let mut extensions = Vec::new();
    extensions.push(bool_extension("meta.whatsapp.native_idempotency", false));
    extensions.push(text_extension("meta.whatsapp.recipient_type", "individual"));
    let mut formats = Vec::new();
    formats.push(PublicationFormat::Message);
    ProviderCapabilities {
        provider_id: String::from_str(WHATSAPP_PROVIDER_ID),
        revision: Some(String::from_str("whatsapp-cloud.individual-text-v1")),
        formats,
        text: TextCapabilities { supported: true, max_characters: None },
        media: MediaCapabilities {
            supported_kinds: Vec::new(),
            max_items: Some(0),
            mixed_kinds: false,
            alt_text: AltTextCapabilities { supported: false, max_characters: None },
        },
        extensions,
    }
}

/// Delivery class of a failed send: a transient or unreadable answer to the
/// final, external action leaves the outcome unknown.
pub open spec fn send_error_class(kind: MetaTransportErrorKind) -> DeliveryErrorClass {
    match kind {
        MetaTransportErrorKind::Authentication => DeliveryErrorClass::AuthRequired,
        MetaTransportErrorKind::RateLimited => DeliveryErrorClass::RateLimited,
        MetaTransportErrorKind::Rejected => DeliveryErrorClass::ProviderRejected,
        MetaTransportErrorKind::Transient => DeliveryErrorClass::OutcomeUnknown,
        MetaTransportErrorKind::InvalidResponse => DeliveryErrorClass::OutcomeUnknown,
    }
}

/// Message of a failed send of the given class.
pub open spec fn send_error_message(class: DeliveryErrorClass) -> Seq<char> {
    match class {
        DeliveryErrorClass::AuthRequired => "WhatsApp authorization is missing, expired, or insufficient"@,
        DeliveryErrorClass::RateLimited => "WhatsApp messaging is rate limited"@,
        DeliveryErrorClass::ProviderRejected => "WhatsApp rejected the message request"@,
        DeliveryErrorClass::OutcomeUnknown => "WhatsApp message outcome is unknown; reconcile provider state before retrying"@,
        _ => "WhatsApp messaging failed"@,
    }
}

/// The delivery error a transport failure of the send becomes: the
/// transport's code and retry guidance are kept.
pub open spec fn mapped_send_error(e: TransportErrorView) -> DeliveryErrorView {
    let class = send_error_class(e.kind);
    DeliveryErrorView {
        class,
        code: e.code,
        message: send_error_message(class),
        retry_after_seconds: e.retry_after_seconds,
        details: seq![],
    }
}

/// Maps a transport failure of the send to a delivery error.
pub fn map_send_error(error: MetaTransportError) -> (r: DeliveryError)
    ensures
        r@ == mapped_send_error(error@),
{
    let class = match error.kind {
        MetaTransportErrorKind::Authentication => DeliveryErrorClass::AuthRequired,
        MetaTransportErrorKind::RateLimited => DeliveryErrorClass::RateLimited,
        MetaTransportErrorKind::Rejected => DeliveryErrorClass::ProviderRejected,
        MetaTransportErrorKind::Transient | MetaTransportErrorKind::InvalidResponse => {
            DeliveryErrorClass::OutcomeUnknown
        },
    };
    let message = match class {
        DeliveryErrorClass::AuthRequired => "WhatsApp authorization is missing, expired, or insufficient",
        DeliveryErrorClass::RateLimited => "WhatsApp messaging is rate limited",
        DeliveryErrorClass::ProviderRejected => "WhatsApp rejected the message request",
        DeliveryErrorClass::OutcomeUnknown => "WhatsApp message outcome is unknown; reconcile provider state before retrying",
        DeliveryErrorClass::InvalidRequest | DeliveryErrorClass::Retryable
        | DeliveryErrorClass::Terminal => "WhatsApp messaging failed",
    };
    let mapped = DeliveryError::new(class, error.code.as_str(), message);
    match error.retry_after_seconds {
        Some(seconds) => mapped.with_retry_after(seconds),
        None => mapped,
    }
}

/// The error of a request without a credential reference.
pub open spec fn credential_required_error() -> DeliveryErrorView {
    plain_delivery_error(
        DeliveryErrorClass::AuthRequired,
        "whatsapp.credential.required"@,
        "WhatsApp messaging requires a configured credential reference"@,
    )
}

/// The error of a request without non-blank text.
pub open spec fn text_required_error() -> DeliveryErrorView {
    plain_delivery_error(
        DeliveryErrorClass::InvalidRequest,
        "whatsapp.text.required"@,
        "the WhatsApp text adapter requires non-empty text"@,
    )
}

/// The error returned when a request carries no credential reference.
pub fn credential_required() -> (r: DeliveryError)
    ensures
        r@ == credential_required_error(),
{
    DeliveryError::new(
        DeliveryErrorClass::AuthRequired,
        "whatsapp.credential.required",
        "WhatsApp messaging requires a configured credential reference",
    )
}

/// What the send decisions read from a Prism publish request.
pub struct WhatsAppSendRequest {
    /// Whether the target carries a credential reference.
    pub has_credential: bool,
    /// The variant's body text, if any.
    pub text: Option<String>,
}

/// What happened since the last action.
pub enum WhatsAppSendEvent {
    /// The request arrived.
    Start,
    /// The binding resolver answered; on success the caller keeps the binding.
    BindingResolved(Result<(), DeliveryError>),
    /// The transport answered the message send.
    Sent(Result<MetaExternalId, MetaTransportError>),
}

/// What the caller does next.
pub enum WhatsAppSendAction {
    /// Resolve the channel/credential binding.
    ResolveBinding,
    /// Send this text (the request's text, unchanged) to the bound recipient.
    SendText(String),
    /// Return this result.
    Finish(Result<ProviderReceipt, DeliveryError>),
}

/// The next action of the send flow: resolve the binding (a credential is
/// required), then send the request's text if it is not blank, then report
/// the receipt or the mapped transport error.
pub fn send_step(request: &WhatsAppSendRequest, event: WhatsAppSendEvent) -> (r:
    WhatsAppSendAction)
    ensures
        event is Start ==> if request.has_credential {
            r is ResolveBinding
        } else {
            r matches WhatsAppSendAction::Finish(Err(e)) && e@ == credential_required_error()
        },
        event matches WhatsAppSendEvent::BindingResolved(Err(e)) ==> r matches WhatsAppSendAction::Finish(Err(e2)) && e2@ == e@,
        event matches WhatsAppSendEvent::BindingResolved(Ok(_)) ==> match request.text {
            Some(t) if has_visible_text(t@) => r matches WhatsAppSendAction::SendText(p) && p@ == t@,
            _ => r matches WhatsAppSendAction::Finish(Err(e)) && e@ == text_required_error(),
        },
        event matches WhatsAppSendEvent::Sent(Ok(id)) ==> r matches WhatsAppSendAction::Finish(Ok(receipt)) && receipt@ == receipt_view(id@, seq![]),
        event matches WhatsAppSendEvent::Sent(Err(e)) ==> r matches WhatsAppSendAction::Finish(Err(d)) && d@ == mapped_send_error(e@),
{
    match event {
        WhatsAppSendEvent::Start => {
            if request.has_credential {
                WhatsAppSendAction::ResolveBinding
            } else {
                WhatsAppSendAction::Finish(Err(credential_required()))
            }
        },
        WhatsAppSendEvent::BindingResolved(Err(e)) => WhatsAppSendAction::Finish(Err(e)),
        WhatsAppSendEvent::BindingResolved(Ok(())) => match &request.text {
            Some(t) => if str_has_visible_text(t.as_str()) {
                WhatsAppSendAction::SendText(t.clone())
            } else {
                WhatsAppSendAction::Finish(Err(text_required()))
            },
            None => WhatsAppSendAction::Finish(Err(text_required())),
        },
        WhatsAppSendEvent::Sent(Ok(id)) => WhatsAppSendAction::Finish(
            Ok(plain_receipt(id.as_str())),
        ),
        WhatsAppSendEvent::Sent(Err(e)) => WhatsAppSendAction::Finish(
            Err(map_send_error(e)),
        ),
    }
}

fn text_required() -> (r: DeliveryError)
    ensures
        r@ == text_required_error(),
{
    DeliveryError::new(
        DeliveryErrorClass::InvalidRequest,
        "whatsapp.text.required",
        "the WhatsApp text adapter requires non-empty text",
    )
}

/// What validation reads from a Prism publish request.
pub struct WhatsAppValidateRequest {
    /// The target's identifier, as it appears in request paths.
    pub target_id: String,
    /// Whether the target carries a credential reference.
    pub has_credential: bool,
    /// The keys of the target's provider options, in request order.
    pub option_keys: Vec<String>,
}

/// The issue reported for a missing credential.
pub open spec fn credential_issue(target_id: Seq<char>) -> IssueView {
    (
        "whatsapp.credential.required"@,
        "/targets/"@ + target_id + "/credential"@,
        "WhatsApp messaging requires a configured credential reference"@,
    )
}

/// The issue reported for one provider option.
pub open spec fn option_issue(target_id: Seq<char>, key: Seq<char>) -> IssueView {
    (
        "whatsapp.option.unsupported"@,
        "/targets/"@ + target_id + "/options/"@ + key,
        "this WhatsApp adapter version does not implement provider options"@,
    )
}

/// Validation issues: a missing credential, then one per provider option
/// (this adapter supports none).
pub open spec fn expected_issues(
    target_id: Seq<char>,
    has_credential: bool,
    keys: Seq<Seq<char>>,
) -> Seq<IssueView> {
    (if has_credential {
        seq![]
    } else {
        seq![credential_issue(target_id)]
    }) + keys.map_values(|k: Seq<char>| option_issue(target_id, k))
}

/// Computes the validation issues of a request.
pub fn validation_issues(request: &WhatsAppValidateRequest) -> (r: Vec<ValidationIssue>)
    ensures
        issues_view(r@) == expected_issues(
            request.target_id@,
            request.has_credential,
            strings_view(request.option_keys@),
        ),
{
    let mut issues: Vec<ValidationIssue> = Vec::new();
    if !request.has_credential {
        let mut path = String::from_str("/targets/");
        path.append(request.target_id.as_str());
        path.append("/credential");
        issues.push(
            ValidationIssue::error(
                "whatsapp.credential.required",
                path,
                "WhatsApp messaging requires a configured credential reference",
            ),
        );
    }
    let ghost head = issues_view(issues@);
    let ghost keys = strings_view(request.option_keys@);
    assert(head =~= (if request.has_credential {
        seq![]
    } else {
        seq![credential_issue(request.target_id@)]
    }));
    let n = request.option_keys.len();
    for i in 0..n
        invariant
            n == request.option_keys@.len(),
            keys == strings_view(request.option_keys@),
            issues_view(issues@) =~= head + keys.take(i as int).map_values(
                |k: Seq<char>| option_issue(request.target_id@, k),
            ),
    {
        let mut path = String::from_str("/targets/");
        path.append(request.target_id.as_str());
        path.append("/options/");
        path.append(request.option_keys[i].as_str());
        let ghost before = issues@;
        issues.push(
            ValidationIssue::error(
                "whatsapp.option.unsupported",
                path,
                "this WhatsApp adapter version does not implement provider options",
            ),
        );
        assert(issues@ =~= before.push(issues@.last()));
        assert(issues_view(issues@) =~= issues_view(before).push(issues@.last()@));
        assert(keys.take(i + 1) =~= keys.take(i as int).push(keys[i as int]));
    }
    assert(keys.take(n as int) =~= keys);
    issues
}

/// What happened since the last validation action.
pub enum WhatsAppValidateEvent {
    /// The request arrived.
    Start,
    /// The binding resolver answered.
    BindingResolved(Result<(), DeliveryError>),
}

/// What the validating caller does next.
pub enum WhatsAppValidateAction {
    /// Resolve the binding, to prove it exists, without publishing.
    ResolveBinding,
    /// Return this result.
    Finish(Result<Vec<ValidationIssue>, DeliveryError>),
}

/// The next action of validation: report the issues if there are any;
/// otherwise resolve the binding and report its failure, if any.
pub fn validate_step(request: &WhatsAppValidateRequest, event: WhatsAppValidateEvent) -> (r:
    WhatsAppValidateAction)
    ensures
        ({
            let expected = expected_issues(
                request.target_id@,
                request.has_credential,
                strings_view(request.option_keys@),
            );
            &&& event is Start ==> if expected.len() == 0 {
                r is ResolveBinding
            } else {
                r matches WhatsAppValidateAction::Finish(Ok(issues)) && issues_view(issues@) == expected
            }
            &&& event matches WhatsAppValidateEvent::BindingResolved(Ok(_)) ==> r matches WhatsAppValidateAction::Finish(Ok(issues)) && issues_view(issues@) == expected
            &&& event matches WhatsAppValidateEvent::BindingResolved(Err(e)) ==> r matches WhatsAppValidateAction::Finish(Err(e2)) && e2@ == e@
        }),
{
    match event {
        WhatsAppValidateEvent::Start => {
            let issues = validation_issues(request);
            if issues.len() == 0 {
                WhatsAppValidateAction::ResolveBinding
            } else {
                WhatsAppValidateAction::Finish(Ok(issues))
            }
        },
        WhatsAppValidateEvent::BindingResolved(Ok(())) => WhatsAppValidateAction::Finish(
            Ok(validation_issues(request)),
        ),
        WhatsAppValidateEvent::BindingResolved(Err(e)) => WhatsAppValidateAction::Finish(Err(e)),
    }
}

/// A read send-response body, with its JSON already decoded into the fields
/// this module decides on.
pub struct MessageResponseBody {
    /// The `id`s of `messages` of a body that decodes as
    /// `{"messages": [{"id": <string>}, ...]}` (`messages` may be absent, which
    /// reads as empty); `None` when it does not decode.
    pub message_ids: Option<Vec<String>>,
    /// `error` of a body that decodes as a Graph error envelope; `None` otherwise.
    pub graph: Option<GraphError>,
}

/// An invalid-response error with the given code.
pub open spec fn invalid_response(code: Seq<char>) -> TransportErrorView {
    TransportErrorView {
        kind: MetaTransportErrorKind::InvalidResponse,
        code,
        retry_after_seconds: None,
    }
}

/// The outcome of a send response: an unreadable body is an invalid
/// response; a 2xx status needs a decodable body whose first message
/// identifier is valid; any other status is classified as a Graph error.
pub open spec fn message_response_outcome(
    status: u16,
    retry_after_header: Option<Seq<char>>,
    body: Option<(Option<Seq<Seq<char>>>, Option<GraphError>)>,
) -> Result<Seq<char>, TransportErrorView> {
    match body {
        None => Err(invalid_response("whatsapp.response.unreadable"@)),
        Some((ids, graph)) => if 200 <= status && status <= 299 {
            match ids {
                None => Err(invalid_response("whatsapp.response.invalid_json"@)),
                Some(ids) => if ids.len() == 0 {
                    Err(invalid_response("whatsapp.response.missing_message_id"@))
                } else if valid_external_id(ids[0]) {
                    Ok(ids[0])
                } else {
                    Err(invalid_response("whatsapp.response.invalid_message_id"@))
                },
            }
        } else {
            Err(
                classified_graph_error(
                    "whatsapp"@,
                    status,
                    graph,
                    match retry_after_header {
                        Some(v) => parsed_u64(v),
                        None => None,
                    },
                ),
            )
        },
    }
}

/// The view of an optional read send-response body.
pub open spec fn message_body_view(body: Option<&MessageResponseBody>) -> Option<
    (Option<Seq<Seq<char>>>, Option<GraphError>),
> {
    match body {
        Some(b) => Some(
            (
                match b.message_ids {
                    Some(ids) => Some(strings_view(ids@)),
                    None => None,
                },
                b.graph,
            ),
        ),
        None => None,
    }
}

fn invalid_response_error(code: &str) -> (r: MetaTransportError)
    ensures
        r@ == invalid_response(code@),
{
    MetaTransportError::new(MetaTransportErrorKind::InvalidResponse, code)
}

/// Interprets the answer to a message send. `body` is `None` when the body
/// could not be read.
pub fn interpret_message_response(
    status: u16,
    retry_after_header: Option<&str>,
    body: Option<&MessageResponseBody>,
) -> (r: Result<MetaExternalId, MetaTransportError>)
    ensures
        match (r, message_response_outcome(status, header_view(retry_after_header), message_body_view(body))) {
            (Ok(id), Ok(expected)) => id@ == expected,
            (Err(e), Err(expected)) => e@ == expected,
            _ => false,
        },
{
    let retry_after = retry_after_from_header(retry_after_header);
    let body = match body {
        Some(b) => b,
        None => return Err(invalid_response_error("whatsapp.response.unreadable")),
    };
    if 200 <= status && status <= 299 {
        let ids = match &body.message_ids {
            Some(ids) => ids,
            None => return Err(invalid_response_error("whatsapp.response.invalid_json")),
        };
        if ids.len() == 0 {
            return Err(invalid_response_error("whatsapp.response.missing_message_id"));
        }
        match MetaExternalId::new(ids[0].as_str()) {
            Ok(id) => Ok(id),
            Err(_) => Err(invalid_response_error("whatsapp.response.invalid_message_id")),
        }
    } else {
        Err(classify_graph_error("whatsapp", status, body.graph, retry_after))
    }
}

/// Law: a Graph error answer to the message send keeps its stable code and
/// retry guidance through the mapping; authentication failures (HTTP 401/403
/// or code 190) require authorization, throttling (HTTP 429 or a throttling
/// code) stays rate limited, other answers with neither a 5xx status nor the
/// transient flag are provider rejections, and the remaining ones (5xx or
/// transient) leave the outcome unknown.
pub proof fn lemma_graph_errors_keep_their_meaning(
    provider: Seq<char>,
    status: u16,
    graph: Option<GraphError>,
    retry_after_seconds: Option<u64>,
)
    ensures
        ({
            let e = classified_graph_error(provider, status, graph, retry_after_seconds);
            let g = graph_error_or_default(graph);
            let d = mapped_send_error(e);
            &&& d.code == e.code
            &&& d.retry_after_seconds == retry_after_seconds
            &&& d.details.len() == 0
            &&& (status == 401 || status == 403 || g.code == Some(190i64)) ==> d.class
                == DeliveryErrorClass::AuthRequired
            &&& !(status == 401 || status == 403 || g.code == Some(190i64)) && (status == 429
                || is_rate_limit_code(g.code)) ==> d.class == DeliveryErrorClass::RateLimited
            &&& d.class == DeliveryErrorClass::ProviderRejected <==> graph_error_kind(status, g)
                == MetaTransportErrorKind::Rejected
            &&& graph_error_kind(status, g) == MetaTransportErrorKind::Transient ==> d.class
                == DeliveryErrorClass::OutcomeUnknown
        }),
{
}

/// Law: an unreadable or undecodable answer to the message send, and any
/// transient failure, leaves the outcome unknown: the caller must reconcile
/// before retrying.
pub proof fn lemma_ambiguous_answers_leave_outcome_unknown(e: TransportErrorView)
    requires
        e.kind == MetaTransportErrorKind::Transient || e.kind == MetaTransportErrorKind::InvalidResponse,
    ensures
        mapped_send_error(e).class == DeliveryErrorClass::OutcomeUnknown,
{
}

/// Law: provider options are never accepted by the WhatsApp send (recipients come only from the binding): a request
/// passes validation (and reaches binding resolution) only when it has a
/// credential and no options.
pub proof fn lemma_options_and_missing_credentials_block_validation(
    target_id: Seq<char>,
    has_credential: bool,
    keys: Seq<Seq<char>>,
)
    ensures
        expected_issues(target_id, has_credential, keys).len() == 0 ==> has_credential && keys.len() == 0,
        expected_issues(target_id, has_credential, keys).len() >= keys.len(),
{
}

/// Law: a non-2xx answer to a send with a readable body is classified from
/// that body's Graph error object and the `Retry-After` value; an
/// expired-token answer (code 190) is an authentication failure, a throttling
/// code is rate limited, whatever the HTTP status, and the code names the
/// Graph code.
pub proof fn lemma_failed_sends_classify_the_body(
    status: u16,
    retry_after_header: Option<Seq<char>>,
    ids: Option<Seq<Seq<char>>>,
    graph: Option<GraphError>,
)
    requires
        !(200 <= status && status <= 299),
    ensures
        message_response_outcome(status, retry_after_header, Some((ids, graph))) == Err::<
            Seq<char>,
            TransportErrorView,
        >(
            classified_graph_error(
                "whatsapp"@,
                status,
                graph,
                match retry_after_header {
                    Some(v) => parsed_u64(v),
                    None => None,
                },
            ),
        ),
        (graph matches Some(g) && g.code == Some(190i64)) ==> (message_response_outcome(
            status,
            retry_after_header,
            Some((ids, graph)),
        ) matches Err(e) && e.kind == MetaTransportErrorKind::Authentication
            && mapped_send_error(e).class == DeliveryErrorClass::AuthRequired),
        (graph matches Some(g) && g.code == Some(613i64) && status != 401 && status != 403)
            ==> (message_response_outcome(status, retry_after_header, Some((ids, graph))) matches Err(
            e,
        ) && e.kind == MetaTransportErrorKind::RateLimited),
{
}

} // verus!
