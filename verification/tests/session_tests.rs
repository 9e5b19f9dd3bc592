use awsaml::codec::EncodedSAML;
use awsaml::provider::EntraIdSamlIdProvider;
use awsaml::request::SamlAuthRequest;
use awsaml::session::CaptureResult;
use awsaml::session::CaptureSession;
use awsaml::session::OneShotSlot;
use awsaml::session::SessionError;
use awsaml::session::capture_callback_request;
use awsaml::session::extract_saml_response;
use awsaml::session::reassemble_post_data;

const CALLBACK: &str = "https://signin.aws.amazon.com/saml";

fn launched_session() -> CaptureSession {
    let mut session = CaptureSession::new(CALLBACK.to_string());
    session.mark_launched();
    session
}

fn fixed_request() -> SamlAuthRequest {
    SamlAuthRequest::from_parts(
        "00000000-0000-4000-8000-000000000000".to_string(),
        "2024-01-02T03:04:05+00:00".to_string(),
        "https://example.com".to_string(),
        CALLBACK.to_string(),
    )
}

#[test]
fn fragmented_body_reassembles_in_order() {
    let entries = vec![Some("SAMLResp".to_string()), Some("onse=abc%3D%3D".to_string())];
    let body = reassemble_post_data(&entries);
    assert_eq!(body, "SAMLResponse=abc%3D%3D");
    assert_eq!(extract_saml_response(&body), Some("abc==".to_string()));
}

#[test]
fn reassembly_skips_entries_without_bytes() {
    let entries = vec![None, Some("a=".to_string()), None, Some("1".to_string())];
    assert_eq!(reassemble_post_data(&entries), "a=1");
}

#[test]
fn extract_takes_the_named_field_only() {
    assert_eq!(
        extract_saml_response("other=x&SAMLResponse=y+z&later=w"),
        Some("y z".to_string())
    );
    assert_eq!(extract_saml_response("foo=bar"), None);
    assert_eq!(extract_saml_response(""), None);
}

#[test]
fn capture_without_field_is_no_assertion_found() {
    let entries = vec![Some("foo=bar&baz=qux".to_string())];
    assert_eq!(
        capture_callback_request(&entries),
        Ok(CaptureResult::NoAssertionFound)
    );
}

#[test]
fn capture_decodes_the_posted_assertion() {
    let xml = fixed_request().to_xml();
    let encoded = EncodedSAML::from_raw_string(xml.clone()).to_string();
    let (head, tail) = encoded.split_at(encoded.len() / 2);
    let entries = vec![
        Some("SAMLResp".to_string()),
        Some(format!("onse={head}")),
        Some(tail.to_string()),
    ];
    assert_eq!(
        capture_callback_request(&entries),
        Ok(CaptureResult::Assertion(xml))
    );
}

#[test]
fn one_shot_slot_accepts_exactly_one_write() {
    let mut slot: OneShotSlot<u32> = OneShotSlot::new();
    assert!(slot.get().is_none());
    assert!(slot.try_write(1));
    assert_eq!(*slot.get(), Some(1));
    assert!(!slot.try_write(2));
    assert_eq!(*slot.get(), Some(1));
}

#[test]
fn begin_process_before_launch_is_refused() {
    let mut session = CaptureSession::new(CALLBACK.to_string());
    let provider = EntraIdSamlIdProvider::new("mytenant".to_string());
    assert_eq!(
        session.begin_process(&provider, fixed_request()),
        Err(SessionError::SessionNotLaunched)
    );
}

#[test]
fn begin_process_returns_the_sign_in_url() {
    let mut session = launched_session();
    let provider = EntraIdSamlIdProvider::new("mytenant".to_string());
    let url = session.begin_process(&provider, fixed_request()).unwrap();
    let expected_query = fixed_request().to_encoded_saml().to_string();
    assert_eq!(
        url,
        format!("https://login.microsoftonline.com/mytenant/saml2?SAMLRequest={expected_query}")
    );
}

#[test]
fn error_response_resolves_provider_failure() {
    let mut session = launched_session();
    session.on_response(403, "https://login.microsoftonline.com/x");
    assert_eq!(
        *session.outcome(),
        Some(Ok(CaptureResult::ProviderFailure(
            403,
            "https://login.microsoftonline.com/x".to_string()
        )))
    );
}

#[test]
fn status_401_does_not_resolve_the_session() {
    let mut session = launched_session();
    session.on_response(401, "https://login.microsoftonline.com/x");
    assert_eq!(*session.outcome(), None);
    // A later real failure still resolves it.
    session.on_response(500, "https://login.microsoftonline.com/y");
    assert_eq!(
        *session.outcome(),
        Some(Ok(CaptureResult::ProviderFailure(
            500,
            "https://login.microsoftonline.com/y".to_string()
        )))
    );
}

#[test]
fn successful_status_does_not_resolve_the_session() {
    let mut session = launched_session();
    session.on_response(200, "https://login.microsoftonline.com/x");
    session.on_response(302, "https://login.microsoftonline.com/y");
    assert_eq!(*session.outcome(), None);
}

#[test]
fn requests_to_other_urls_are_ignored() {
    let mut session = launched_session();
    session.on_request(
        "https://example.org/elsewhere",
        "POST",
        Some(vec![Some("SAMLResponse=abc".to_string())]),
    );
    session.on_request(CALLBACK, "GET", Some(vec![Some("SAMLResponse=abc".to_string())]));
    assert_eq!(*session.outcome(), None);
}

#[test]
fn callback_post_without_field_resolves_no_assertion_found() {
    let mut session = launched_session();
    session.on_request(CALLBACK, "POST", Some(vec![Some("foo=bar".to_string())]));
    assert_eq!(*session.outcome(), Some(Ok(CaptureResult::NoAssertionFound)));
}

#[test]
fn callback_post_without_entries_resolves_no_assertion_found() {
    let mut session = launched_session();
    session.on_request(CALLBACK, "POST", None);
    assert_eq!(*session.outcome(), Some(Ok(CaptureResult::NoAssertionFound)));
}

#[test]
fn callback_post_resolves_the_assertion() {
    let xml = fixed_request().to_xml();
    let encoded = EncodedSAML::from_raw_string(xml.clone()).to_string();
    let mut session = launched_session();
    session.on_request(CALLBACK, "POST", Some(vec![Some(format!("SAMLResponse={encoded}"))]));
    assert_eq!(*session.outcome(), Some(Ok(CaptureResult::Assertion(xml))));
}

#[test]
fn racing_observers_resolve_exactly_once() {
    // Failure first: the later success is a no-op.
    let xml = fixed_request().to_xml();
    let encoded = EncodedSAML::from_raw_string(xml.clone()).to_string();
    let mut session = launched_session();
    session.on_response(403, "https://login.microsoftonline.com/x");
    session.on_request(CALLBACK, "POST", Some(vec![Some(format!("SAMLResponse={encoded}"))]));
    assert_eq!(
        *session.outcome(),
        Some(Ok(CaptureResult::ProviderFailure(
            403,
            "https://login.microsoftonline.com/x".to_string()
        )))
    );

    // Success first: the later failure is a no-op.
    let mut session = launched_session();
    session.on_request(CALLBACK, "POST", Some(vec![Some(format!("SAMLResponse={encoded}"))]));
    session.on_response(403, "https://login.microsoftonline.com/x");
    assert_eq!(*session.outcome(), Some(Ok(CaptureResult::Assertion(xml))));
}

#[test]
fn events_before_launch_are_ignored() {
    let mut session = CaptureSession::new(CALLBACK.to_string());
    session.on_response(403, "https://login.microsoftonline.com/x");
    session.on_request(CALLBACK, "POST", Some(vec![Some("SAMLResponse=abc".to_string())]));
    assert_eq!(*session.outcome(), None);
}
