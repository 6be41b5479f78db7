use base64::Engine;
use rapyd::flows::{now_unix_timestamp, unix_timestamp_from, CurrencyUnit};
use rapyd::signing::{Rapyd, RapydAuthType};
use rapyd::types::{CaptureMethod, ConnectorError, Method, Request, ResponseId};

fn auth() -> RapydAuthType {
    RapydAuthType::new("ak_test".to_string(), "sk_test".to_string())
}

fn header<'a>(r: &'a Request, name: &str) -> &'a str {
    r.headers.iter().find(|h| h.name == name).map(|h| h.value.as_str()).unwrap()
}

fn recompute(method: &str, path: &str, body: &str, r: &Request) -> String {
    let text = format!(
        "{method}{path}{}{}ak_testsk_test{body}",
        header(r, "salt"),
        header(r, "timestamp")
    );
    let key = ring::hmac::Key::new(ring::hmac::HMAC_SHA256, b"sk_test");
    let tag = ring::hmac::sign(&key, text.as_bytes());
    base64::engine::general_purpose::URL_SAFE.encode(hex::encode(tag.as_ref()))
}

#[test]
fn capture_method_automatic_and_manual_are_accepted() {
    let rapyd = Rapyd::new();
    assert!(rapyd.validate_capture_method(Some(CaptureMethod::Automatic)).is_ok());
    assert!(rapyd.validate_capture_method(Some(CaptureMethod::Manual)).is_ok());
    assert!(rapyd.validate_capture_method(None).is_ok());
}

#[test]
fn capture_method_manual_multiple_and_scheduled_are_rejected() {
    let rapyd = Rapyd::new();
    match rapyd.validate_capture_method(Some(CaptureMethod::ManualMultiple)) {
        Err(ConnectorError::NotSupported { message, connector }) => {
            assert_eq!(message, "manual_multiple");
            assert_eq!(connector, "rapyd");
        }
        _ => panic!("expected NotSupported"),
    }
    match rapyd.validate_capture_method(Some(CaptureMethod::Scheduled)) {
        Err(ConnectorError::NotSupported { message, connector }) => {
            assert_eq!(message, "scheduled");
            assert_eq!(connector, "rapyd");
        }
        _ => panic!("expected NotSupported"),
    }
}

#[test]
fn authorize_posts_signed_amount_body() {
    let rapyd = Rapyd::new();
    let body = "{\"amount\":1000,\"currency\":\"USD\"}";
    let r = rapyd.build_authorize_request(&auth(), "https://sandboxapi.rapyd.net", body);
    assert_eq!(r.method, Method::Post);
    assert_eq!(r.url, "https://sandboxapi.rapyd.net/v1/payments");
    assert_eq!(r.body.as_deref(), Some(body));
    assert!(r.body.as_deref().unwrap().contains("\"amount\":1000"));
    let names: Vec<&str> = r.headers.iter().map(|h| h.name.as_str()).collect();
    assert_eq!(names, vec!["Content-Type", "access_key", "salt", "timestamp", "signature"]);
    assert_eq!(header(&r, "Content-Type"), "application/json");
    assert_eq!(header(&r, "access_key"), "ak_test");
    let salt = header(&r, "salt");
    assert_eq!(salt.len(), 12);
    assert!(salt.chars().all(|c| c.is_ascii_alphanumeric()));
    assert!(header(&r, "timestamp").parse::<i64>().unwrap() > 1_600_000_000);
    assert_eq!(header(&r, "signature"), recompute("post", "/v1/payments", body, &r));
    let masked: Vec<bool> = r.headers.iter().map(|h| h.masked).collect();
    assert_eq!(masked, vec![false, true, true, false, true]);
}

#[test]
fn authorize_with_fixed_timestamp_and_salt() {
    let rapyd = Rapyd::new();
    let r = rapyd.authorize_request(&auth(), "https://b", "{\"amount\":1000}", 1234, "SALTsalt1234");
    assert_eq!(header(&r, "timestamp"), "1234");
    assert_eq!(header(&r, "salt"), "SALTsalt1234");
    let sig = rapyd
        .generate_signature(&auth(), "post", "/v1/payments", "{\"amount\":1000}", &1234, "SALTsalt1234")
        .ok()
        .unwrap();
    assert_eq!(header(&r, "signature"), sig);
}

#[test]
fn capture_posts_to_capture_path() {
    let rapyd = Rapyd::new();
    let r = rapyd.build_capture_request(&auth(), "https://b", "payment_1", "{\"amount\":500}");
    assert_eq!(r.method, Method::Post);
    assert_eq!(r.url, "https://b/v1/payments/payment_1/capture");
    assert_eq!(header(&r, "signature"), recompute("post", "/v1/payments/payment_1/capture", "{\"amount\":500}", &r));
    let fixed = rapyd.capture_request(&auth(), "https://b", "payment_1", "{}", 7, "abcdefabcdef");
    assert_eq!(fixed.url, "https://b/v1/payments/payment_1/capture");
}

#[test]
fn void_deletes_without_body() {
    let rapyd = Rapyd::new();
    let r = rapyd.build_void_request(&auth(), "https://b", "payment_2");
    assert_eq!(r.method, Method::Delete);
    assert_eq!(r.url, "https://b/v1/payments/payment_2");
    assert!(r.body.is_none());
    assert_eq!(header(&r, "signature"), recompute("delete", "/v1/payments/payment_2", "", &r));
    let fixed = rapyd.void_request(&auth(), "https://b", "payment_2", 7, "abcdefabcdef");
    assert!(fixed.body.is_none());
}

#[test]
fn sync_gets_payment() {
    let rapyd = Rapyd::new();
    let id = ResponseId::ConnectorTransactionId("payment_3".to_string());
    let r = rapyd.build_sync_request(&auth(), "https://b", &id).ok().unwrap();
    assert_eq!(r.method, Method::Get);
    assert_eq!(r.url, "https://b/v1/payments/payment_3");
    assert_eq!(header(&r, "signature"), recompute("get", "/v1/payments/payment_3", "", &r));
    let fixed = rapyd.sync_request(&auth(), "https://b", &id, 9, "abcdefabcdef").ok().unwrap();
    assert_eq!(header(&fixed, "timestamp"), "9");
}

#[test]
fn sync_without_transaction_id_fails_before_building() {
    let rapyd = Rapyd::new();
    for id in [ResponseId::NoResponseId, ResponseId::EncodedData("x".to_string())] {
        assert!(matches!(
            rapyd.build_sync_request(&auth(), "https://b", &id),
            Err(ConnectorError::MissingConnectorTransactionID)
        ));
        assert!(matches!(
            rapyd.sync_request(&auth(), "https://b", &id, 1, "abcdefabcdef"),
            Err(ConnectorError::MissingConnectorTransactionID)
        ));
    }
}

#[test]
fn refund_posts_to_refunds() {
    let rapyd = Rapyd::new();
    let body = "{\"payment\":\"payment_4\",\"amount\":250}";
    let r = rapyd.build_refund_request(&auth(), "https://b", body);
    assert_eq!(r.url, "https://b/v1/refunds");
    assert_eq!(header(&r, "signature"), recompute("post", "/v1/refunds", body, &r));
    let fixed = rapyd.refund_request(&auth(), "https://b", body, 3, "abcdefabcdef");
    assert_eq!(fixed.body.as_deref(), Some(body));
}

#[test]
fn setup_mandate_is_not_implemented() {
    let rapyd = Rapyd::new();
    match rapyd.setup_mandate_request() {
        Err(ConnectorError::NotImplemented(flow)) => assert_eq!(flow, "Setup Mandate flow for Rapyd"),
        _ => panic!("expected NotImplemented"),
    }
}

#[test]
fn connector_id_is_rapyd() {
    assert_eq!(Rapyd::new().id(), "rapyd");
}

#[test]
fn connector_constants() {
    let rapyd = Rapyd::new();
    assert_eq!(rapyd.get_currency_unit(), CurrencyUnit::Minor);
    assert_eq!(rapyd.common_get_content_type(), "application/json");
    assert!(rapyd.get_auth_header().is_empty());
}

#[test]
fn clock_reads_current_time() {
    let t = now_unix_timestamp();
    assert!(t > 1_600_000_000);
}

#[test]
fn clock_readings_map_to_timestamps() {
    assert_eq!(unix_timestamp_from(Some(1_700_000_000)), 1_700_000_000);
    assert_eq!(unix_timestamp_from(None), 0);
    assert_eq!(unix_timestamp_from(Some(u64::MAX)), i64::MAX);
    assert_eq!(unix_timestamp_from(Some(i64::MAX as u64)), i64::MAX);
}
