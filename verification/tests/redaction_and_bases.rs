use prism_provider_meta::graph_url::{validated_api_base, MetaTransportConfigError};
use prism_provider_meta::transport_error::{classify_graph_error, GraphError, MetaTransportErrorKind};
use prism_provider_meta::values::{MetaAccessToken, MetaValueError, PublicMediaUrl};
use prism_provider_meta::whatsapp::WhatsAppRecipient;

/// Decodes a Graph error envelope with the rules of a serde struct whose
/// fields default when absent: a field of the wrong type drops the whole
/// `error` object.
fn graph_error_of(body: &[u8]) -> Option<GraphError> {
    let value: serde_json::Value = serde_json::from_slice(body).ok()?;
    let error = value.as_object()?.get("error")?;
    if error.is_null() {
        return None;
    }
    let error = error.as_object()?;
    let integer = |key: &str| -> Result<Option<i64>, ()> {
        match error.get(key) {
            None | Some(serde_json::Value::Null) => Ok(None),
            Some(v) => v.as_i64().map(Some).ok_or(()),
        }
    };
    let code = integer("code").ok()?;
    let error_subcode = integer("error_subcode").ok()?;
    let is_transient = match error.get("is_transient") {
        None => false,
        Some(v) => v.as_bool()?,
    };
    Some(GraphError { code, error_subcode, is_transient })
}

#[test]
fn secrets_and_signed_media_urls_are_redacted() {
    let token = MetaAccessToken::new("secret-token").expect("valid token");
    let media = PublicMediaUrl::new("https://cdn.example/image.jpg?signature=secret")
        .expect("valid media URL");
    assert_eq!(token.redacted_debug(), "MetaAccessToken([REDACTED])");
    assert_eq!(media.redacted_debug(), "PublicMediaUrl([REDACTED])");
}

#[test]
fn graph_errors_drop_upstream_messages() {
    let body = br#"{"error":{"message":"sensitive upstream detail","code":190}}"#;
    let error = classify_graph_error("facebook", 400, graph_error_of(body), None);
    assert_eq!(error.kind, MetaTransportErrorKind::Authentication);
    assert_eq!(error.code, "facebook.api.190");
    assert!(!format!("{error:?}").contains("sensitive upstream detail"));
}

#[test]
fn facebook_transport_rejects_plaintext_graph_bases() {
    let error = validated_api_base("http://graph.facebook.com/v26.0/")
        .err()
        .expect("HTTP must be rejected");
    assert_eq!(error, MetaTransportConfigError::InsecureBaseUrl);
}

#[test]
fn transport_rejects_plaintext_api_bases() {
    let error = validated_api_base("http://graph.instagram.com/v26.0/")
        .err()
        .expect("HTTP must be rejected");
    assert_eq!(error, MetaTransportConfigError::InsecureBaseUrl);
}

#[test]
fn recipient_is_canonical_digits_only() {
    assert!(WhatsAppRecipient::new("380501234567").is_ok());
    assert_eq!(
        WhatsAppRecipient::new("+380501234567").expect_err("plus sign is not canonical"),
        MetaValueError::InvalidRecipient
    );
}

#[test]
fn whatsapp_transport_rejects_plaintext_graph_bases() {
    let error = validated_api_base("http://graph.facebook.com/v26.0/")
        .err()
        .expect("HTTP must be rejected");
    assert_eq!(error, MetaTransportConfigError::InsecureBaseUrl);
}

#[test]
fn mistyped_error_fields_drop_the_error_object() {
    let body = br#"{"error":{"code":190,"is_transient":"yes"}}"#;
    assert_eq!(graph_error_of(body), None);
    let error = classify_graph_error("facebook", 400, graph_error_of(body), None);
    assert_eq!(error.kind, MetaTransportErrorKind::Rejected);
    assert_eq!(error.code, "facebook.http.400");
}
