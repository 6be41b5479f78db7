use rapyd::signing::{Rapyd, RapydAuthType};
use rapyd::responses::{NextAction, RapydPaymentStatus, RefundResponseData, RefundStatus, ResponseData};
use rapyd::types::ConnectorError;
use rapyd::webhooks::{
    bytes_equal, get_header_key_value, DisputeResponseData, DisputeStage, IncomingWebhookEvent,
    IncomingWebhookRequestDetails, ObjectReferenceId, RapydIncomingWebhook, RapydWebhookDisputeStatus,
    RapydWebhookObjectEventType, WebhookData, WebhookResourceObject,
};

const BODY: &str = "{\"type\":\"PAYMENT_COMPLETED\",\"data\":{\"id\":\"payment_9\"}}";

fn auth() -> RapydAuthType {
    RapydAuthType::new("ak_hook".to_string(), "sk_hook".to_string())
}

fn signed_request(body: &str) -> IncomingWebhookRequestDetails {
    let rapyd = Rapyd::new();
    let url = "https://merchant.example.com/webhooks/merchant_1/rapyd";
    let sig = rapyd.generate_signature(&auth(), "", url, body, &1700000000, "abcdefghijkl").ok().unwrap();
    IncomingWebhookRequestDetails {
        headers: vec![
            ("host".to_string(), "merchant.example.com".to_string()),
            ("salt".to_string(), "abcdefghijkl".to_string()),
            ("timestamp".to_string(), "1700000000".to_string()),
            ("signature".to_string(), sig),
        ],
        body: body.as_bytes().to_vec(),
    }
}

fn set_signature(req: &mut IncomingWebhookRequestDetails, sig: String) {
    for h in req.headers.iter_mut() {
        if h.0 == "signature" {
            h.1 = sig.clone();
        }
    }
}

fn dispute(status: RapydWebhookDisputeStatus) -> DisputeResponseData {
    DisputeResponseData {
        id: "dispute_1".to_string(),
        amount: 1250,
        currency: "EUR".to_string(),
        token: "dispute_token_1".to_string(),
        dispute_reason_description: "fraud".to_string(),
        due_date: Some("2024-01-01".to_string()),
        status,
        created_at: Some("2023-12-01".to_string()),
        updated_at: None,
        original_transaction_id: "payment_orig".to_string(),
    }
}

fn payment_data() -> ResponseData {
    ResponseData {
        id: "payment_9".to_string(),
        amount: 10,
        status: RapydPaymentStatus::Closed,
        next_action: NextAction::NotApplicable,
        redirect_url: None,
        failure_code: None,
        failure_message: None,
    }
}

fn refund_data() -> RefundResponseData {
    RefundResponseData {
        id: "refund_9".to_string(),
        payment: "payment_9".to_string(),
        amount: 10,
        currency: "USD".to_string(),
        status: RefundStatus::Completed,
        failure_reason: None,
    }
}

fn webhook(t: RapydWebhookObjectEventType, data: WebhookData) -> Option<RapydIncomingWebhook> {
    Some(RapydIncomingWebhook { id: "wh_1".to_string(), webhook_type: t, data })
}

#[test]
fn webhook_signed_by_the_engine_verifies() {
    let rapyd = Rapyd::new();
    let req = signed_request(BODY);
    assert!(matches!(rapyd.verify_webhook_source(&req, "merchant_1", Some(auth())), Ok(true)));
}

#[test]
fn webhook_with_tampered_last_signature_byte_is_rejected() {
    let rapyd = Rapyd::new();
    let mut req = signed_request(BODY);
    let mut sig = get_header_key_value("signature", &req.headers).unwrap();
    let last = sig.pop().unwrap();
    sig.push(if last == 'A' { 'B' } else { 'A' });
    set_signature(&mut req, sig);
    assert!(matches!(
        rapyd.verify_webhook_source(&req, "merchant_1", Some(auth())),
        Err(ConnectorError::WebhookSourceVerificationFailed)
    ));
}

#[test]
fn webhook_with_other_decodable_signature_does_not_verify() {
    let rapyd = Rapyd::new();
    let mut req = signed_request(BODY);
    let sig = get_header_key_value("signature", &req.headers).unwrap();
    let mut chars: Vec<char> = sig.chars().collect();
    chars[0] = if chars[0] == 'M' { 'N' } else { 'M' };
    set_signature(&mut req, chars.into_iter().collect());
    assert!(matches!(rapyd.verify_webhook_source(&req, "merchant_1", Some(auth())), Ok(false)));
}

#[test]
fn webhook_for_another_merchant_or_body_does_not_verify() {
    let rapyd = Rapyd::new();
    let req = signed_request(BODY);
    assert!(matches!(rapyd.verify_webhook_source(&req, "merchant_2", Some(auth())), Ok(false)));
    let mut other = signed_request(BODY);
    other.body = b"{}".to_vec();
    assert!(matches!(rapyd.verify_webhook_source(&other, "merchant_1", Some(auth())), Ok(false)));
}

#[test]
fn webhook_missing_header_or_keys_fails_closed() {
    let rapyd = Rapyd::new();
    for name in ["host", "salt", "timestamp", "signature"] {
        let mut req = signed_request(BODY);
        req.headers.retain(|h| h.0 != name);
        assert!(matches!(
            rapyd.verify_webhook_source(&req, "merchant_1", Some(auth())),
            Err(ConnectorError::WebhookSourceVerificationFailed)
        ));
    }
    let req = signed_request(BODY);
    assert!(matches!(
        rapyd.verify_webhook_source(&req, "merchant_1", None),
        Err(ConnectorError::WebhookSourceVerificationFailed)
    ));
}

#[test]
fn webhook_with_non_utf8_body_fails_closed() {
    let rapyd = Rapyd::new();
    let mut req = signed_request(BODY);
    req.body = vec![0xc3, 0x28];
    assert!(matches!(
        rapyd.get_webhook_source_verification_message(&req, "merchant_1", &auth()),
        Err(ConnectorError::WebhookSourceVerificationFailed)
    ));
}

#[test]
fn webhook_message_is_the_documented_concatenation() {
    let rapyd = Rapyd::new();
    let req = signed_request(BODY);
    let m = rapyd.get_webhook_source_verification_message(&req, "merchant_1", &auth()).ok().unwrap();
    assert_eq!(
        m,
        format!("https://merchant.example.com/webhooks/merchant_1/rapydabcdefghijkl1700000000ak_hooksk_hook{BODY}")
    );
}

#[test]
fn webhook_signature_is_base64_decoded() {
    let rapyd = Rapyd::new();
    let req = IncomingWebhookRequestDetails {
        headers: vec![("signature".to_string(), "aGVsbG8=".to_string())],
        body: vec![],
    };
    assert_eq!(rapyd.get_webhook_source_verification_signature(&req).ok().unwrap(), b"hello".to_vec());
    let bad = IncomingWebhookRequestDetails {
        headers: vec![("signature".to_string(), "not base64!".to_string())],
        body: vec![],
    };
    assert!(matches!(
        rapyd.get_webhook_source_verification_signature(&bad),
        Err(ConnectorError::WebhookSourceVerificationFailed)
    ));
}

#[test]
fn header_lookup_takes_the_first_match() {
    let hs = vec![("a".to_string(), "1".to_string()), ("b".to_string(), "2".to_string()), ("a".to_string(), "3".to_string())];
    assert_eq!(get_header_key_value("a", &hs).as_deref(), Some("1"));
    assert_eq!(get_header_key_value("b", &hs).as_deref(), Some("2"));
    assert!(get_header_key_value("c", &hs).is_none());
}

#[test]
fn byte_comparison() {
    assert!(bytes_equal(b"abc", b"abc"));
    assert!(!bytes_equal(b"abc", b"abd"));
    assert!(!bytes_equal(b"abc", b"ab"));
    assert!(bytes_equal(b"", b""));
}

#[test]
fn dispute_won_maps_to_dispute_won() {
    let rapyd = Rapyd::new();
    let w = webhook(RapydWebhookObjectEventType::PaymentDisputeUpdated, WebhookData::Dispute(dispute(RapydWebhookDisputeStatus::Win)));
    assert_eq!(rapyd.get_webhook_event_type(w).ok().unwrap(), IncomingWebhookEvent::DisputeWon);
}

#[test]
fn dispute_updated_statuses_map_to_sub_events() {
    let rapyd = Rapyd::new();
    let cases = [
        (RapydWebhookDisputeStatus::Active, IncomingWebhookEvent::DisputeOpened),
        (RapydWebhookDisputeStatus::Review, IncomingWebhookEvent::DisputeChallenged),
        (RapydWebhookDisputeStatus::Lose, IncomingWebhookEvent::DisputeLost),
        (RapydWebhookDisputeStatus::Unknown, IncomingWebhookEvent::EventNotSupported),
    ];
    for (st, expected) in cases {
        let w = webhook(RapydWebhookObjectEventType::PaymentDisputeUpdated, WebhookData::Dispute(dispute(st)));
        assert_eq!(rapyd.get_webhook_event_type(w).ok().unwrap(), expected);
    }
    let w = webhook(RapydWebhookObjectEventType::PaymentDisputeUpdated, WebhookData::Payment(payment_data()));
    assert_eq!(rapyd.get_webhook_event_type(w).ok().unwrap(), IncomingWebhookEvent::EventNotSupported);
}

#[test]
fn event_kinds_map_to_canonical_events() {
    let rapyd = Rapyd::new();
    let cases = [
        (RapydWebhookObjectEventType::PaymentCompleted, IncomingWebhookEvent::PaymentIntentSuccess),
        (RapydWebhookObjectEventType::PaymentCaptured, IncomingWebhookEvent::PaymentIntentSuccess),
        (RapydWebhookObjectEventType::PaymentFailed, IncomingWebhookEvent::PaymentIntentFailure),
        (RapydWebhookObjectEventType::PaymentRefundFailed, IncomingWebhookEvent::RefundFailure),
        (RapydWebhookObjectEventType::PaymentRefundRejected, IncomingWebhookEvent::RefundFailure),
        (RapydWebhookObjectEventType::RefundCompleted, IncomingWebhookEvent::RefundSuccess),
        (RapydWebhookObjectEventType::PaymentDisputeCreated, IncomingWebhookEvent::DisputeOpened),
        (RapydWebhookObjectEventType::Unknown, IncomingWebhookEvent::EventNotSupported),
    ];
    for (t, expected) in cases {
        let w = webhook(t, WebhookData::Payment(payment_data()));
        assert_eq!(rapyd.get_webhook_event_type(w).ok().unwrap(), expected);
    }
    assert!(matches!(rapyd.get_webhook_event_type(None), Err(ConnectorError::WebhookEventTypeNotFound)));
}

#[test]
fn reference_ids_by_object() {
    let rapyd = Rapyd::new();
    let w = webhook(RapydWebhookObjectEventType::PaymentCompleted, WebhookData::Payment(payment_data()));
    assert!(matches!(rapyd.get_webhook_object_reference_id(w), Ok(ObjectReferenceId::PaymentId(id)) if id == "payment_9"));
    let w = webhook(RapydWebhookObjectEventType::RefundCompleted, WebhookData::Refund(refund_data()));
    assert!(matches!(rapyd.get_webhook_object_reference_id(w), Ok(ObjectReferenceId::RefundId(id)) if id == "refund_9"));
    let w = webhook(RapydWebhookObjectEventType::PaymentDisputeCreated, WebhookData::Dispute(dispute(RapydWebhookDisputeStatus::Active)));
    assert!(matches!(rapyd.get_webhook_object_reference_id(w), Ok(ObjectReferenceId::PaymentId(id)) if id == "payment_orig"));
    assert!(matches!(rapyd.get_webhook_object_reference_id(None), Err(ConnectorError::WebhookEventTypeNotFound)));
}

#[test]
fn resource_object_wraps_payment() {
    let rapyd = Rapyd::new();
    let w = webhook(RapydWebhookObjectEventType::PaymentCompleted, WebhookData::Payment(payment_data()));
    match rapyd.get_webhook_resource_object(w) {
        Ok(WebhookResourceObject::Payment(resp)) => {
            assert_eq!(resp.status.error_code, "No error code");
            assert!(resp.status.status.is_none());
            assert_eq!(resp.data.unwrap().id, "payment_9");
        }
        _ => panic!("expected a payment"),
    }
    let w = webhook(RapydWebhookObjectEventType::RefundCompleted, WebhookData::Refund(refund_data()));
    assert!(matches!(rapyd.get_webhook_resource_object(w), Ok(WebhookResourceObject::Refund(r)) if r.id == "refund_9"));
    assert!(matches!(rapyd.get_webhook_resource_object(None), Err(ConnectorError::WebhookEventTypeNotFound)));
}

#[test]
fn dispute_details_from_dispute_webhook() {
    let rapyd = Rapyd::new();
    let w = webhook(RapydWebhookObjectEventType::PaymentDisputeUpdated, WebhookData::Dispute(dispute(RapydWebhookDisputeStatus::Lose)));
    let p = rapyd.get_dispute_details(w).ok().unwrap();
    assert_eq!(p.amount, "1250");
    assert_eq!(p.currency, "EUR");
    assert_eq!(p.dispute_stage, DisputeStage::Dispute);
    assert_eq!(p.connector_dispute_id, "dispute_token_1");
    assert_eq!(p.connector_reason.as_deref(), Some("fraud"));
    assert!(p.connector_reason_code.is_none());
    assert_eq!(p.challenge_required_by.as_deref(), Some("2024-01-01"));
    assert_eq!(p.connector_status, "Lose");
    assert_eq!(p.created_at.as_deref(), Some("2023-12-01"));
    assert!(p.updated_at.is_none());
}

#[test]
fn dispute_details_of_other_webhook_fail() {
    let rapyd = Rapyd::new();
    let w = webhook(RapydWebhookObjectEventType::PaymentCompleted, WebhookData::Payment(payment_data()));
    assert!(matches!(rapyd.get_dispute_details(w), Err(ConnectorError::WebhookBodyDecodingFailed)));
    assert!(matches!(rapyd.get_dispute_details(None), Err(ConnectorError::WebhookEventTypeNotFound)));
}
