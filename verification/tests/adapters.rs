use prism_provider_meta::delivery::{
    DeliveryError, DeliveryErrorClass, ExtensionValue, MediaKind, PublicationFormat,
};
use prism_provider_meta::facebook::{
    self, FacebookBinding, FacebookPublishAction, FacebookPublishEvent, FacebookPublishRequest,
    FacebookValidateAction, FacebookValidateEvent, FacebookValidateRequest,
};
use prism_provider_meta::instagram::{
    self, InstagramBinding, InstagramPublishAction, InstagramPublishEvent,
    InstagramPublishRequest, InstagramValidateAction, InstagramValidateEvent,
    InstagramValidateRequest,
};
use prism_provider_meta::transport_error::{MetaTransportError, MetaTransportErrorKind};
use prism_provider_meta::values::{MetaAccessToken, MetaExternalId, MetaNumericId, PublicMediaUrl};
use prism_provider_meta::whatsapp::{
    self, MessageResponseBody, WhatsAppBinding, WhatsAppRecipient, WhatsAppSendAction,
    WhatsAppSendEvent, WhatsAppSendRequest,
};

fn transient() -> MetaTransportError {
    MetaTransportError::new(MetaTransportErrorKind::Transient, "x.http.503").with_retry_after(9)
}

#[test]
fn bindings_redact_tokens_in_debug_output() {
    let binding = FacebookBinding::new(
        MetaNumericId::new("42").unwrap(),
        MetaAccessToken::new("secret").unwrap(),
    );
    assert_eq!(binding.page_id().as_str(), "42");
    assert_eq!(binding.access_token().expose_secret(), "secret");
    assert_eq!(
        binding.redacted_debug(),
        "FacebookBinding { page_id: MetaNumericId(\"42\"), access_token: MetaAccessToken([REDACTED]) }"
    );
    let binding = InstagramBinding::new(
        MetaNumericId::new("7").unwrap(),
        MetaAccessToken::new("secret").unwrap(),
    );
    assert_eq!(binding.user_id().as_str(), "7");
    assert_eq!(
        binding.redacted_debug(),
        "InstagramBinding { user_id: MetaNumericId(\"7\"), access_token: MetaAccessToken([REDACTED]) }"
    );
    let binding = WhatsAppBinding::new(
        MetaNumericId::new("9").unwrap(),
        WhatsAppRecipient::new("380501234567").unwrap(),
        MetaAccessToken::new("secret").unwrap(),
    );
    assert_eq!(binding.phone_number_id().as_str(), "9");
    assert_eq!(binding.recipient().as_str(), "380501234567");
    assert_eq!(
        binding.redacted_debug(),
        "WhatsAppBinding { phone_number_id: MetaNumericId(\"9\"), recipient: WhatsAppRecipient(\"380501234567\"), access_token: MetaAccessToken([REDACTED]) }"
    );
    assert!(!binding.redacted_debug().contains("secret"));
}

#[test]
fn capability_snapshots() {
    let fb = facebook::capabilities();
    assert_eq!(fb.provider_id, "meta.facebook");
    assert_eq!(fb.revision.as_deref(), Some("facebook-pages.text-v1"));
    assert_eq!(fb.formats, vec![PublicationFormat::Post]);
    assert_eq!(fb.media.max_items, Some(0));
    assert_eq!(fb.extensions[0].key, "meta.facebook.native_idempotency");
    assert_eq!(fb.extensions[0].value, ExtensionValue::Bool(false));
    let ig = instagram::capabilities();
    assert_eq!(ig.media.supported_kinds, vec![MediaKind::Image]);
    assert_eq!(ig.media.max_items, Some(1));
    assert_eq!(ig.revision.as_deref(), Some("instagram-feed.single-image-v1"));
    let wa = whatsapp::capabilities();
    assert_eq!(wa.formats, vec![PublicationFormat::Message]);
    assert_eq!(wa.extensions.len(), 2);
    assert_eq!(wa.extensions[1].key, "meta.whatsapp.recipient_type");
    assert_eq!(wa.extensions[1].value, ExtensionValue::Text("individual".to_string()));
}

#[test]
fn facebook_publish_flow() {
    let request = FacebookPublishRequest { has_credential: false, text: Some("hi".into()) };
    match facebook::publish_step(&request, FacebookPublishEvent::Start) {
        FacebookPublishAction::Finish(Err(e)) => {
            assert_eq!(e.class, DeliveryErrorClass::AuthRequired);
            assert_eq!(e.code, "facebook.credential.required");
        }
        _ => panic!("a missing credential must stop the flow"),
    }
    let request = FacebookPublishRequest { has_credential: true, text: Some(" hi ".into()) };
    assert!(matches!(
        facebook::publish_step(&request, FacebookPublishEvent::Start),
        FacebookPublishAction::ResolveBinding
    ));
    match facebook::publish_step(&request, FacebookPublishEvent::BindingResolved(Ok(()))) {
        FacebookPublishAction::PublishText(text) => assert_eq!(text, " hi "),
        _ => panic!("text must be published"),
    }
    let blank = FacebookPublishRequest { has_credential: true, text: Some(" \n ".into()) };
    match facebook::publish_step(&blank, FacebookPublishEvent::BindingResolved(Ok(()))) {
        FacebookPublishAction::Finish(Err(e)) => assert_eq!(e.code, "facebook.text.required"),
        _ => panic!("blank text must be refused"),
    }
    let resolver_error = DeliveryError::new(DeliveryErrorClass::Terminal, "resolver", "no");
    match facebook::publish_step(&request, FacebookPublishEvent::BindingResolved(Err(resolver_error.clone()))) {
        FacebookPublishAction::Finish(Err(e)) => assert_eq!(e, resolver_error),
        _ => panic!("resolver errors pass through"),
    }
    let id = MetaExternalId::new("1_2").unwrap();
    match facebook::publish_step(&request, FacebookPublishEvent::Published(Ok(id))) {
        FacebookPublishAction::Finish(Ok(receipt)) => {
            assert_eq!(receipt.external_id, "1_2");
            assert!(receipt.details.is_empty());
        }
        _ => panic!("receipt expected"),
    }
    match facebook::publish_step(&request, FacebookPublishEvent::Published(Err(transient()))) {
        FacebookPublishAction::Finish(Err(e)) => {
            assert_eq!(e.class, DeliveryErrorClass::OutcomeUnknown);
            assert_eq!(e.code, "x.http.503");
            assert_eq!(e.retry_after_seconds, Some(9));
        }
        _ => panic!("mapped error expected"),
    }
}

#[test]
fn error_mappings_per_provider() {
    let auth = MetaTransportError::new(MetaTransportErrorKind::Authentication, "c");
    let limited = MetaTransportError::new(MetaTransportErrorKind::RateLimited, "c");
    let rejected = MetaTransportError::new(MetaTransportErrorKind::Rejected, "c");
    let invalid = MetaTransportError::new(MetaTransportErrorKind::InvalidResponse, "c");
    assert_eq!(facebook::map_publish_error(auth.clone()).class, DeliveryErrorClass::AuthRequired);
    assert_eq!(facebook::map_publish_error(limited.clone()).message, "Facebook Page publishing is rate limited");
    assert_eq!(facebook::map_publish_error(rejected.clone()).class, DeliveryErrorClass::ProviderRejected);
    assert_eq!(whatsapp::map_send_error(invalid.clone()).class, DeliveryErrorClass::OutcomeUnknown);
    assert_eq!(
        whatsapp::map_send_error(auth.clone()).message,
        "WhatsApp authorization is missing, expired, or insufficient"
    );
    let container = MetaExternalId::new("17900").unwrap();
    let created = instagram::map_container_error(transient());
    assert_eq!(created.class, DeliveryErrorClass::Retryable);
    assert_eq!(created.message, "Instagram media container creation failed before a public action");
    assert!(created.details.is_empty());
    let published = instagram::map_publish_error(transient(), &container);
    assert_eq!(published.class, DeliveryErrorClass::OutcomeUnknown);
    assert_eq!(published.retry_after_seconds, Some(9));
    assert_eq!(published.details.len(), 1);
    assert_eq!(published.details[0].key, "meta.instagram.container_id");
    assert_eq!(published.details[0].value, "17900");
    assert_eq!(
        instagram::map_publish_error(rejected, &container).class,
        DeliveryErrorClass::ProviderRejected
    );
}

#[test]
fn instagram_publish_flow() {
    let request = InstagramPublishRequest {
        has_credential: true,
        media: vec![MediaKind::Image],
        text: Some("  ".into()),
    };
    assert!(matches!(
        instagram::publish_step(&request, InstagramPublishEvent::BindingResolved(Ok(()))),
        InstagramPublishAction::ResolveMedia
    ));
    match instagram::publish_step(&request, InstagramPublishEvent::MediaResolved(Ok(()))) {
        InstagramPublishAction::CreateContainer { caption } => assert_eq!(caption, None),
        _ => panic!("container expected"),
    }
    let captioned = InstagramPublishRequest { text: Some("sunset".into()), ..request };
    match instagram::publish_step(&captioned, InstagramPublishEvent::MediaResolved(Ok(()))) {
        InstagramPublishAction::CreateContainer { caption } => {
            assert_eq!(caption.as_deref(), Some("sunset"))
        }
        _ => panic!("container expected"),
    }
    let two = InstagramPublishRequest {
        has_credential: true,
        media: vec![MediaKind::Image, MediaKind::Image],
        text: None,
    };
    match instagram::publish_step(&two, InstagramPublishEvent::BindingResolved(Ok(()))) {
        InstagramPublishAction::Finish(Err(e)) => {
            assert_eq!(e.code, "instagram.media.single_image_required");
            assert_eq!(e.class, DeliveryErrorClass::InvalidRequest);
        }
        _ => panic!("two images are refused"),
    }
    let video = InstagramPublishRequest { has_credential: true, media: vec![MediaKind::Video], text: None };
    assert!(matches!(
        instagram::publish_step(&video, InstagramPublishEvent::BindingResolved(Ok(()))),
        InstagramPublishAction::Finish(Err(_))
    ));
    let container = MetaExternalId::new("17900").unwrap();
    match instagram::publish_step(&captioned, InstagramPublishEvent::ContainerCreated(Ok(container.clone()))) {
        InstagramPublishAction::PublishContainer(id) => assert_eq!(id, container),
        _ => panic!("publish expected"),
    }
    match instagram::publish_step(&captioned, InstagramPublishEvent::ContainerCreated(Err(transient()))) {
        InstagramPublishAction::Finish(Err(e)) => assert_eq!(e.class, DeliveryErrorClass::Retryable),
        _ => panic!("retryable expected"),
    }
    let published = MetaExternalId::new("18000").unwrap();
    match instagram::publish_step(
        &captioned,
        InstagramPublishEvent::ContainerPublished { container_id: container.clone(), result: Ok(published) },
    ) {
        InstagramPublishAction::Finish(Ok(receipt)) => {
            assert_eq!(receipt.external_id, "18000");
            assert_eq!(receipt.details[0].key, "meta.instagram.container_id");
            assert_eq!(receipt.details[0].value, "17900");
        }
        _ => panic!("receipt expected"),
    }
    match instagram::publish_step(
        &captioned,
        InstagramPublishEvent::ContainerPublished { container_id: container, result: Err(transient()) },
    ) {
        InstagramPublishAction::Finish(Err(e)) => assert_eq!(e.class, DeliveryErrorClass::OutcomeUnknown),
        _ => panic!("unknown outcome expected"),
    }
}

#[test]
fn instagram_forms() {
    let url = PublicMediaUrl::new("https://cdn.example/i.jpg").unwrap();
    assert_eq!(
        instagram::container_form(&url, Some("hello")),
        vec![
            ("image_url".to_string(), "https://cdn.example/i.jpg".to_string()),
            ("caption".to_string(), "hello".to_string())
        ]
    );
    assert_eq!(instagram::container_form(&url, None).len(), 1);
    let id = MetaExternalId::new("17900").unwrap();
    assert_eq!(
        instagram::publish_form(&id),
        vec![("creation_id".to_string(), "17900".to_string())]
    );
}

#[test]
fn validation_issues_and_gating() {
    let request = FacebookValidateRequest {
        target_id: "t1".into(),
        has_credential: false,
        option_keys: vec!["meta.facebook.link".into(), "meta.facebook.place".into()],
    };
    let issues = facebook::validation_issues(&request);
    assert_eq!(issues.len(), 3);
    assert_eq!(issues[0].code, "facebook.credential.required");
    assert_eq!(issues[0].path, "/targets/t1/credential");
    assert_eq!(issues[2].code, "facebook.option.unsupported");
    assert_eq!(issues[2].path, "/targets/t1/options/meta.facebook.place");
    assert!(matches!(
        facebook::validate_step(&request, FacebookValidateEvent::Start),
        FacebookValidateAction::Finish(Ok(ref v)) if v.len() == 3
    ));
    let clean = FacebookValidateRequest { target_id: "t1".into(), has_credential: true, option_keys: vec![] };
    assert!(matches!(
        facebook::validate_step(&clean, FacebookValidateEvent::Start),
        FacebookValidateAction::ResolveBinding
    ));
    let ig = InstagramValidateRequest {
        target_id: "t2".into(),
        variant_id: "v9".into(),
        has_credential: true,
        option_keys: vec![],
        media: vec![],
    };
    let issues = instagram::validation_issues(&ig);
    assert_eq!(issues.len(), 1);
    assert_eq!(issues[0].path, "/variants/v9/body/media");
    let ok = InstagramValidateRequest { media: vec![MediaKind::Image], ..ig };
    assert!(matches!(
        instagram::validate_step(&ok, InstagramValidateEvent::Start),
        InstagramValidateAction::ResolveBinding
    ));
    assert!(matches!(
        instagram::validate_step(&ok, InstagramValidateEvent::BindingResolved(Ok(()))),
        InstagramValidateAction::ResolveMedia
    ));
    assert!(matches!(
        instagram::validate_step(&ok, InstagramValidateEvent::MediaResolved(Ok(()))),
        InstagramValidateAction::Finish(Ok(ref v)) if v.is_empty()
    ));
}

#[test]
fn whatsapp_send_flow_and_responses() {
    let request = WhatsAppSendRequest { has_credential: true, text: None };
    match whatsapp::send_step(&request, WhatsAppSendEvent::BindingResolved(Ok(()))) {
        WhatsAppSendAction::Finish(Err(e)) => {
            assert_eq!(e.code, "whatsapp.text.required");
            assert_eq!(e.message, "the WhatsApp text adapter requires non-empty text");
        }
        _ => panic!("missing text must be refused"),
    }
    let ok = MessageResponseBody { message_ids: Some(vec!["wamid.1".into(), "wamid.2".into()]), graph: None };
    assert_eq!(
        whatsapp::interpret_message_response(200, None, Some(&ok)).unwrap().as_str(),
        "wamid.1"
    );
    let empty = MessageResponseBody { message_ids: Some(vec![]), graph: None };
    assert_eq!(
        whatsapp::interpret_message_response(200, None, Some(&empty)).unwrap_err().code,
        "whatsapp.response.missing_message_id"
    );
    let bad = MessageResponseBody { message_ids: Some(vec!["".into()]), graph: None };
    assert_eq!(
        whatsapp::interpret_message_response(200, None, Some(&bad)).unwrap_err().code,
        "whatsapp.response.invalid_message_id"
    );
    let not_json = MessageResponseBody { message_ids: None, graph: None };
    assert_eq!(
        whatsapp::interpret_message_response(200, None, Some(&not_json)).unwrap_err().code,
        "whatsapp.response.invalid_json"
    );
    assert_eq!(
        whatsapp::interpret_message_response(200, None, None).unwrap_err().code,
        "whatsapp.response.unreadable"
    );
    let error = whatsapp::interpret_message_response(503, Some("5"), Some(&not_json)).unwrap_err();
    assert_eq!(error.kind, MetaTransportErrorKind::Transient);
    assert_eq!(error.code, "whatsapp.http.503");
    assert_eq!(error.retry_after_seconds, Some(5));
}

#[test]
fn request_bodies() {
    assert_eq!(
        facebook::publish_form("hello"),
        vec![("message".to_string(), "hello".to_string())]
    );
    let binding = WhatsAppBinding::new(
        MetaNumericId::new("9").unwrap(),
        WhatsAppRecipient::new("380501234567").unwrap(),
        MetaAccessToken::new("secret").unwrap(),
    );
    let payload = whatsapp::message_payload(&binding, "hi there");
    assert_eq!(payload.messaging_product, "whatsapp");
    assert_eq!(payload.recipient_type, "individual");
    assert_eq!(payload.to, "380501234567");
    assert_eq!(payload.message_type, "text");
    assert!(!payload.preview_url);
    assert_eq!(payload.body, "hi there");
}
