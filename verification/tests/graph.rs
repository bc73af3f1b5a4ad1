use prism_provider_meta::graph_url::{validated_api_base, MetaTransportConfigError};
use prism_provider_meta::transport_error::{
    classify_graph_error, interpret_id_response, retry_after_from_header, GraphError,
    IdResponseBody, MetaTransportError, MetaTransportErrorKind,
};
use prism_provider_meta::values::MetaNumericId;
use prism_provider_meta::graph_url::{api_base_decision, ParsedUrl};
use prism_provider_meta::instagram::InstagramOperation;
use prism_provider_meta::values::{media_url_decision, MetaValueError};
use prism_provider_meta::{facebook, instagram, whatsapp};

fn graph(code: Option<i64>, error_subcode: Option<i64>, is_transient: bool) -> Option<GraphError> {
    Some(GraphError { code, error_subcode, is_transient })
}

#[test]
fn classification_precedence() {
    let kind = |status, g| classify_graph_error("facebook", status, g, None).kind;
    assert_eq!(kind(401, None), MetaTransportErrorKind::Authentication);
    assert_eq!(kind(403, None), MetaTransportErrorKind::Authentication);
    assert_eq!(kind(429, graph(Some(190), None, true)), MetaTransportErrorKind::Authentication);
    assert_eq!(kind(429, None), MetaTransportErrorKind::RateLimited);
    for code in [4, 17, 32, 613] {
        assert_eq!(kind(500, graph(Some(code), None, false)), MetaTransportErrorKind::RateLimited);
    }
    assert_eq!(kind(503, graph(Some(2), None, false)), MetaTransportErrorKind::Transient);
    assert_eq!(kind(400, graph(Some(2), None, true)), MetaTransportErrorKind::Transient);
    assert_eq!(kind(400, graph(Some(100), None, false)), MetaTransportErrorKind::Rejected);
    assert_eq!(kind(600, None), MetaTransportErrorKind::Rejected);
}

#[test]
fn classification_codes() {
    let code = |status, g| classify_graph_error("whatsapp", status, g, None).code;
    assert_eq!(code(400, graph(Some(100), Some(33), false)), "whatsapp.api.100.33");
    assert_eq!(code(400, graph(Some(-5), Some(-7), false)), "whatsapp.api.-5.-7");
    assert_eq!(code(400, graph(Some(100), None, false)), "whatsapp.api.100");
    assert_eq!(code(502, graph(None, Some(9), false)), "whatsapp.http.502");
    assert_eq!(code(404, None), "whatsapp.http.404");
}

#[test]
fn retry_guidance_is_kept() {
    let error = classify_graph_error(
        "instagram",
        429,
        None,
        retry_after_from_header(Some("120")),
    );
    assert_eq!(
        error,
        MetaTransportError::new(MetaTransportErrorKind::RateLimited, "instagram.http.429")
            .with_retry_after(120)
    );
    assert_eq!(retry_after_from_header(Some("soon")), None);
    assert_eq!(retry_after_from_header(None), None);
}

#[test]
fn id_responses() {
    let ok = IdResponseBody { id: Some("123_456".to_string()), graph: None };
    assert_eq!(
        interpret_id_response("facebook", 200, None, Some(&ok)).expect("id").as_str(),
        "123_456"
    );
    let unreadable = interpret_id_response("facebook", 200, None, None).expect_err("unreadable");
    assert_eq!(unreadable.kind, MetaTransportErrorKind::InvalidResponse);
    assert_eq!(unreadable.code, "facebook.response.unreadable");
    let not_json = IdResponseBody { id: None, graph: None };
    assert_eq!(
        interpret_id_response("instagram", 201, None, Some(&not_json)).expect_err("json").code,
        "instagram.response.invalid_json"
    );
    let bad_id = IdResponseBody { id: Some("a b".to_string()), graph: None };
    assert_eq!(
        interpret_id_response("instagram", 200, None, Some(&bad_id)).expect_err("id").code,
        "instagram.response.invalid_id"
    );
    let failed = IdResponseBody { id: Some("1".to_string()), graph: graph(Some(190), None, false) };
    let error = interpret_id_response("facebook", 400, Some("30"), Some(&failed)).expect_err("4xx");
    assert_eq!(error.kind, MetaTransportErrorKind::Authentication);
    assert_eq!(error.code, "facebook.api.190");
    assert_eq!(error.retry_after_seconds, Some(30));
}

#[test]
fn api_base_validation() {
    assert_eq!(
        validated_api_base("not a url").err(),
        Some(MetaTransportConfigError::InvalidBaseUrl)
    );
    assert_eq!(
        validated_api_base("ftp://graph.facebook.com/").err(),
        Some(MetaTransportConfigError::InsecureBaseUrl)
    );
    for bad in [
        "https://user@graph.facebook.com/v26.0/",
        "https://:pw@graph.facebook.com/v26.0/",
        "https://graph.facebook.com/v26.0/?x=1",
        "https://graph.facebook.com/v26.0/#f",
    ] {
        assert_eq!(
            validated_api_base(bad).err(),
            Some(MetaTransportConfigError::InvalidBaseUrl),
            "{bad}"
        );
    }
    assert_eq!(
        MetaTransportConfigError::InsecureBaseUrl.message(),
        "Meta API base URL must use HTTPS"
    );
    assert_eq!(MetaTransportConfigError::InvalidBaseUrl.message(), "invalid Meta API base URL");
}

#[test]
fn endpoints_append_segments_once() {
    let id = MetaNumericId::new("123").expect("id");
    let base = facebook::default_api_base().expect("default base");
    assert_eq!(
        facebook::feed_endpoint(&base, &id),
        "https://graph.facebook.com/v26.0/123/feed"
    );
    let base = whatsapp::default_api_base().expect("default base");
    assert_eq!(
        whatsapp::messages_endpoint(&base, &id),
        "https://graph.facebook.com/v26.0/123/messages"
    );
    let base = instagram::default_api_base().expect("default base");
    assert_eq!(
        instagram::endpoint(&base, &id, InstagramOperation::PublishContainer),
        "https://graph.instagram.com/v26.0/123/media_publish"
    );
    let base = validated_api_base("https://graph.example/v1").expect("no trailing slash");
    assert_eq!(instagram::endpoint(&base, &id, InstagramOperation::CreateContainer), "https://graph.example/v1/123/media");
    let root = validated_api_base("https://graph.example").expect("root");
    assert_eq!(facebook::feed_endpoint(&root, &id), "https://graph.example/123/feed");
}

fn parsed(scheme: &str, has_host: bool, username: &str) -> ParsedUrl {
    ParsedUrl {
        serialization: format!("{scheme}://cdn.example/x"),
        scheme: scheme.to_string(),
        has_host,
        username: username.to_string(),
        has_password: false,
        has_query: false,
        has_fragment: false,
        cannot_be_a_base: false,
    }
}

#[test]
fn decisions_on_parsed_urls() {
    assert_eq!(
        media_url_decision(Some(parsed("https", true, ""))),
        Ok("https://cdn.example/x".to_string())
    );
    assert_eq!(media_url_decision(None), Err(MetaValueError::InvalidMediaUrl));
    assert_eq!(
        media_url_decision(Some(parsed("https", false, ""))),
        Err(MetaValueError::InvalidMediaUrl)
    );
    assert_eq!(
        media_url_decision(Some(parsed("https", true, "me"))),
        Err(MetaValueError::InvalidMediaUrl)
    );
    assert_eq!(api_base_decision(&Some(parsed("https", true, ""))), None);
    assert_eq!(api_base_decision(&None), Some(MetaTransportConfigError::InvalidBaseUrl));
    assert_eq!(
        api_base_decision(&Some(parsed("http", true, ""))),
        Some(MetaTransportConfigError::InsecureBaseUrl)
    );
    let mut query = parsed("https", true, "");
    query.has_query = true;
    assert_eq!(api_base_decision(&Some(query)), Some(MetaTransportConfigError::InvalidBaseUrl));
    let mut opaque = parsed("https", true, "");
    opaque.cannot_be_a_base = true;
    assert_eq!(api_base_decision(&Some(opaque)), Some(MetaTransportConfigError::InvalidBaseUrl));
}

#[test]
fn base_reports_its_serialized_length() {
    let base = validated_api_base("HTTPS://Graph.Example:443/v1").expect("base");
    assert_eq!(base.serialization_len(), "https://graph.example/v1".len());
}
