//! Inbound webhooks: authenticating the sender and reading the event.
use vstd::prelude::*;
use vstd::utf8::*;
use vstd::string::StringExecFns;
use crate::external::{base64_url_decode, base64_url_of, i64_to_string, decimal_of, utf8_to_string, HMAC_INPUT_LIMIT};
use crate::responses::{RapydPaymentsResponse, RefundResponseData, ResponseData, Status, NO_ERROR_CODE};
use crate::signing::{hex_tag, hmac_hex, Rapyd, RapydAuthType};
use crate::types::ConnectorError;

verus! {

/// The parts of an inbound webhook call that verification reads. Header
/// names are matched exactly, so they are handed over in lowercase, as HTTP
/// header maps keep them.
pub struct IncomingWebhookRequestDetails {
    pub headers: Vec<(String, String)>,
    pub body: Vec<u8>,
}

pub open spec fn header_pairs(hs: Seq<(String, String)>) -> Seq<(Seq<char>, Seq<char>)> {
    hs.map_values(|h: (String, String)| (h.0@, h.1@))
}

/// The value of the first header named `key`.
pub open spec fn header_value(hs: Seq<(Seq<char>, Seq<char>)>, key: Seq<char>) -> Option<Seq<char>>
    decreases hs.len(),
{
    if hs.len() == 0 {
        None
    } else if hs[0].0 == key {
        Some(hs[0].1)
    } else {
        header_value(hs.drop_first(), key)
    }
}

/// Finds the value of the first header named `key`.
pub fn get_header_key_value(key: &str, headers: &Vec<(String, String)>) -> (r: Option<String>)
    ensures
        match header_value(header_pairs(headers@), key@) {
            Some(v) => r matches Some(s) && s@ == v,
            None => r is None,
        },
{
    let key_owned = key.to_owned();
    let ghost hs = header_pairs(headers@);
    let mut i: usize = 0;
    assert(hs.subrange(0, hs.len() as int) =~= hs);
    while i < headers.len()
        invariant
            0 <= i <= headers@.len(),
            hs == header_pairs(headers@),
            key_owned@ == key@,
            header_value(hs, key@) == header_value(hs.subrange(i as int, hs.len() as int), key@),
        decreases headers.len() - i,
    {
        assert(hs.subrange(i as int, hs.len() as int).drop_first() =~= hs.subrange(i + 1, hs.len() as int));
        if headers[i].0 == key_owned {
            return Some(headers[i].1.clone());
        }
        i = i + 1;
    }
    assert(hs.subrange(i as int, hs.len() as int) =~= Seq::<(Seq<char>, Seq<char>)>::empty());
    None
}

/// Whether two byte strings are equal. Every byte is compared, whatever
/// the first difference, so the time taken does not tell where it lies.
pub fn bytes_equal(a: &[u8], b: &[u8]) -> (r: bool)
    ensures
        r == (a@ == b@),
{
    if a.len() != b.len() {
        return false;
    }
    let mut same = true;
    let mut i: usize = 0;
    assert(a@.subrange(0, 0) =~= b@.subrange(0, 0));
    while i < a.len()
        invariant
            0 <= i <= a@.len(),
            a@.len() == b@.len(),
            same == (a@.subrange(0, i as int) == b@.subrange(0, i as int)),
        decreases a.len() - i,
    {
        proof {
            let a1 = a@.subrange(0, i + 1);
            let b1 = b@.subrange(0, i + 1);
            assert(a1.subrange(0, i as int) =~= a@.subrange(0, i as int));
            assert(b1.subrange(0, i as int) =~= b@.subrange(0, i as int));
            if a@.subrange(0, i as int) == b@.subrange(0, i as int) && a@[i as int] == b@[i as int] {
                assert(a1 =~= b1);
            }
            if a1 == b1 {
                assert(a1[i as int] == b1[i as int]);
            }
        }
        same = same && a[i] == b[i];
        i = i + 1;
    }
    assert(a@.subrange(0, a@.len() as int) =~= a@);
    assert(b@.subrange(0, b@.len() as int) =~= b@);
    same
}

/// The address the provider signs webhooks for.
pub open spec fn webhook_url(host: Seq<char>, merchant_id: Seq<char>) -> Seq<char> {
    "https://"@ + host + "/webhooks/"@ + merchant_id + "/"@ + Rapyd::spec_id()
}

/// The text a webhook's signature covers: the webhook address, salt,
/// timestamp, access key, secret key and body, joined with no separator.
pub open spec fn webhook_message(
    host: Seq<char>,
    merchant_id: Seq<char>,
    salt: Seq<char>,
    timestamp: Seq<char>,
    access_key: Seq<char>,
    secret_key: Seq<char>,
    body: Seq<char>,
) -> Seq<char> {
    webhook_url(host, merchant_id) + salt + timestamp + access_key + secret_key + body
}

/// `sig` is base64 of some bytes.
pub open spec fn decodable(sig: Seq<char>) -> bool {
    exists|b: Seq<u8>| base64_url_of(b) == sig
}

/// `v` is the one byte string whose base64 is `sig`.
pub open spec fn decodes_to(sig: Seq<char>, v: Seq<u8>) -> bool {
    &&& base64_url_of(v) == sig
    &&& forall|b: Seq<u8>| #[trigger] base64_url_of(b) == sig ==> b == v
}

/// The signed text rebuilt from the headers and body, when the `host`,
/// `salt` and `timestamp` headers are there and the body is UTF-8.
pub open spec fn message_of(
    headers: Seq<(Seq<char>, Seq<char>)>,
    body: Seq<u8>,
    merchant_id: Seq<char>,
    access_key: Seq<char>,
    secret_key: Seq<char>,
) -> Option<Seq<char>> {
    match (header_value(headers, "host"@), header_value(headers, "salt"@), header_value(headers, "timestamp"@)) {
        (Some(host), Some(salt), Some(timestamp)) => if valid_utf8(body) {
            Some(webhook_message(host, merchant_id, salt, timestamp, access_key, secret_key, decode_utf8(body)))
        } else {
            None
        },
        _ => None,
    }
}

/// The verdict on a webhook: `None` when it cannot be checked (a header is
/// missing, the signature is not base64, the body is not UTF-8, or the input
/// is beyond what HMAC-SHA256 takes), else whether the signature is the hex
/// HMAC of the rebuilt text.
pub open spec fn verification_outcome(
    headers: Seq<(Seq<char>, Seq<char>)>,
    body: Seq<u8>,
    merchant_id: Seq<char>,
    access_key: Seq<char>,
    secret_key: Seq<char>,
) -> Option<bool> {
    match (header_value(headers, "signature"@), message_of(headers, body, merchant_id, access_key, secret_key)) {
        (Some(sig), Some(message)) => if decodable(sig) && encode_utf8(message).len() < HMAC_INPUT_LIMIT as int
            && encode_utf8(secret_key).len() < HMAC_INPUT_LIMIT as int {
            Some(base64_url_of(encode_utf8(hex_tag(secret_key, message))) == sig)
        } else {
            None
        },
        _ => None,
    }
}

impl Rapyd {
    /// The signature bytes of a webhook: its `signature` header, base64-decoded.
    pub fn get_webhook_source_verification_signature(&self, request: &IncomingWebhookRequestDetails) -> (r: Result<
        Vec<u8>,
        ConnectorError,
    >)
        ensures
            match header_value(header_pairs(request.headers@), "signature"@) {
                Some(sig) => if decodable(sig) {
                    r matches Ok(v) && decodes_to(sig, v@)
                } else {
                    r matches Err(ConnectorError::WebhookSourceVerificationFailed)
                },
                None => r matches Err(ConnectorError::WebhookSourceVerificationFailed),
            },
    {
        match get_header_key_value("signature", &request.headers) {
            None => Err(ConnectorError::WebhookSourceVerificationFailed),
            Some(sig) => match base64_url_decode(sig.as_str()) {
                Some(b) => Ok(b),
                None => Err(ConnectorError::WebhookSourceVerificationFailed),
            },
        }
    }

    /// The text a webhook's signature should cover, rebuilt from its headers,
    /// the merchant and the keys.
    pub fn get_webhook_source_verification_message(
        &self,
        request: &IncomingWebhookRequestDetails,
        merchant_id: &str,
        auth: &RapydAuthType,
    ) -> (r: Result<String, ConnectorError>)
        ensures
            match message_of(header_pairs(request.headers@), request.body@, merchant_id@, auth.access_key@, auth.secret_key@) {
                Some(m) => r matches Ok(s) && s@ == m,
                None => r matches Err(ConnectorError::WebhookSourceVerificationFailed),
            },
    {
        let host = match get_header_key_value("host", &request.headers) {
            Some(h) => h,
            None => return Err(ConnectorError::WebhookSourceVerificationFailed),
        };
        let salt = match get_header_key_value("salt", &request.headers) {
            Some(s) => s,
            None => return Err(ConnectorError::WebhookSourceVerificationFailed),
        };
        let timestamp = match get_header_key_value("timestamp", &request.headers) {
            Some(t) => t,
            None => return Err(ConnectorError::WebhookSourceVerificationFailed),
        };
        let body = match utf8_to_string(request.body.as_slice()) {
            Some(b) => b,
            None => return Err(ConnectorError::WebhookSourceVerificationFailed),
        };
        let mut message = "https://".to_owned();
        message.append(host.as_str());
        message.append("/webhooks/");
        message.append(merchant_id);
        message.append("/");
        message.append(self.id());
        message.append(salt.as_str());
        message.append(timestamp.as_str());
        message.append(auth.access_key.peek());
        message.append(auth.secret_key.peek());
        message.append(body.as_str());
        Ok(message)
    }

    /// Authenticates a webhook. `auth` is the merchant's stored keys, `None`
    /// when they could not be read; then, and whenever the webhook cannot be
    /// checked, verification fails closed. Otherwise the result says whether
    /// the signature matches.
    pub fn verify_webhook_source(
        &self,
        request: &IncomingWebhookRequestDetails,
        merchant_id: &str,
        auth: Option<RapydAuthType>,
    ) -> (r: Result<bool, ConnectorError>)
        ensures
            match auth {
                None => r matches Err(ConnectorError::WebhookSourceVerificationFailed),
                Some(a) => match verification_outcome(
                    header_pairs(request.headers@),
                    request.body@,
                    merchant_id@,
                    a.access_key@,
                    a.secret_key@,
                ) {
                    Some(ok) => r matches Ok(v) && v == ok,
                    None => r matches Err(ConnectorError::WebhookSourceVerificationFailed),
                },
            },
    {
        let auth = match auth {
            Some(a) => a,
            None => return Err(ConnectorError::WebhookSourceVerificationFailed),
        };
        let signature = match self.get_webhook_source_verification_signature(request) {
            Ok(s) => s,
            Err(_) => return Err(ConnectorError::WebhookSourceVerificationFailed),
        };
        let message = match self.get_webhook_source_verification_message(request, merchant_id, &auth) {
            Ok(m) => m,
            Err(_) => return Err(ConnectorError::WebhookSourceVerificationFailed),
        };
        let secret = auth.secret_key.peek();
        if message.as_str().as_bytes().len() as u64 >= HMAC_INPUT_LIMIT || secret.as_bytes().len() as u64
            >= HMAC_INPUT_LIMIT {
            return Err(ConnectorError::WebhookSourceVerificationFailed);
        }
        let expected = hmac_hex(secret, message.as_str());
        Ok(bytes_equal(expected.as_str().as_bytes(), signature.as_slice()))
    }
}

/// The kind of event a webhook announces.
#[derive(PartialEq, Eq, Structural, Clone, Copy, Debug)]
pub enum RapydWebhookObjectEventType {
    PaymentCompleted,
    PaymentCaptured,
    PaymentFailed,
    RefundCompleted,
    PaymentRefundRejected,
    PaymentRefundFailed,
    PaymentDisputeCreated,
    PaymentDisputeUpdated,
    Unknown,
}

/// The provider's state of a dispute.
#[derive(PartialEq, Eq, Structural, Clone, Copy, Debug)]
pub enum RapydWebhookDisputeStatus {
    Active,
    Review,
    Lose,
    Win,
    Unknown,
}

impl RapydWebhookDisputeStatus {
    pub open spec fn spec_name(self) -> Seq<char> {
        match self {
            RapydWebhookDisputeStatus::Active => "Active"@,
            RapydWebhookDisputeStatus::Review => "Review"@,
            RapydWebhookDisputeStatus::Lose => "Lose"@,
            RapydWebhookDisputeStatus::Win => "Win"@,
            RapydWebhookDisputeStatus::Unknown => "Unknown"@,
        }
    }

    /// The state's name.
    pub fn name(&self) -> (r: String)
        ensures
            r@ == self.spec_name(),
    {
        match self {
            RapydWebhookDisputeStatus::Active => "Active".to_owned(),
            RapydWebhookDisputeStatus::Review => "Review".to_owned(),
            RapydWebhookDisputeStatus::Lose => "Lose".to_owned(),
            RapydWebhookDisputeStatus::Win => "Win".to_owned(),
            RapydWebhookDisputeStatus::Unknown => "Unknown".to_owned(),
        }
    }
}

/// The dispute object of a webhook.
pub struct DisputeResponseData {
    pub id: String,
    pub amount: i64,
    pub currency: String,
    pub token: String,
    pub dispute_reason_description: String,
    pub due_date: Option<String>,
    pub status: RapydWebhookDisputeStatus,
    pub created_at: Option<String>,
    pub updated_at: Option<String>,
    pub original_transaction_id: String,
}

/// The object a webhook is about.
pub enum WebhookData {
    Payment(ResponseData),
    Refund(RefundResponseData),
    Dispute(DisputeResponseData),
}

/// A webhook body, as parsed.
pub struct RapydIncomingWebhook {
    pub id: String,
    pub webhook_type: RapydWebhookObjectEventType,
    pub data: WebhookData,
}

/// The canonical events a webhook can stand for.
#[derive(PartialEq, Eq, Structural, Clone, Copy, Debug)]
pub enum IncomingWebhookEvent {
    PaymentIntentSuccess,
    PaymentIntentFailure,
    RefundSuccess,
    RefundFailure,
    DisputeOpened,
    DisputeChallenged,
    DisputeLost,
    DisputeWon,
    EventNotSupported,
}

/// What a webhook refers to: a payment by its connector transaction id, or
/// a refund by its connector refund id.
pub enum ObjectReferenceId {
    PaymentId(String),
    RefundId(String),
}

/// The stage a dispute is in.
#[derive(PartialEq, Eq, Structural, Clone, Copy, Debug)]
pub enum DisputeStage {
    PreDispute,
    Dispute,
    PreArbitration,
}

/// The canonical description of a dispute.
pub struct DisputePayload {
    pub amount: String,
    pub currency: String,
    pub dispute_stage: DisputeStage,
    pub connector_dispute_id: String,
    pub connector_reason: Option<String>,
    pub connector_reason_code: Option<String>,
    pub challenge_required_by: Option<String>,
    pub connector_status: String,
    pub created_at: Option<String>,
    pub updated_at: Option<String>,
}

/// The object of a webhook, handed on to the orchestrator. A payment comes
/// wrapped as a payment response.
pub enum WebhookResourceObject {
    Payment(RapydPaymentsResponse),
    Refund(RefundResponseData),
    Dispute(DisputeResponseData),
}

/// The event a dispute's state stands for.
pub open spec fn dispute_event(status: RapydWebhookDisputeStatus) -> IncomingWebhookEvent {
    match status {
        RapydWebhookDisputeStatus::Active => IncomingWebhookEvent::DisputeOpened,
        RapydWebhookDisputeStatus::Review => IncomingWebhookEvent::DisputeChallenged,
        RapydWebhookDisputeStatus::Lose => IncomingWebhookEvent::DisputeLost,
        RapydWebhookDisputeStatus::Win => IncomingWebhookEvent::DisputeWon,
        RapydWebhookDisputeStatus::Unknown => IncomingWebhookEvent::EventNotSupported,
    }
}

/// The canonical event of a webhook of kind `t` about `data`.
pub open spec fn event_of(t: RapydWebhookObjectEventType, data: WebhookData) -> IncomingWebhookEvent {
    match t {
        RapydWebhookObjectEventType::PaymentCompleted | RapydWebhookObjectEventType::PaymentCaptured => IncomingWebhookEvent::PaymentIntentSuccess,
        RapydWebhookObjectEventType::PaymentFailed => IncomingWebhookEvent::PaymentIntentFailure,
        RapydWebhookObjectEventType::PaymentRefundFailed | RapydWebhookObjectEventType::PaymentRefundRejected => IncomingWebhookEvent::RefundFailure,
        RapydWebhookObjectEventType::RefundCompleted => IncomingWebhookEvent::RefundSuccess,
        RapydWebhookObjectEventType::PaymentDisputeCreated => IncomingWebhookEvent::DisputeOpened,
        RapydWebhookObjectEventType::Unknown => IncomingWebhookEvent::EventNotSupported,
        RapydWebhookObjectEventType::PaymentDisputeUpdated => match data {
            WebhookData::Dispute(d) => dispute_event(d.status),
            _ => IncomingWebhookEvent::EventNotSupported,
        },
    }
}

fn dispute_event_of(status: RapydWebhookDisputeStatus) -> (r: IncomingWebhookEvent)
    ensures
        r == dispute_event(status),
{
    match status {
        RapydWebhookDisputeStatus::Active => IncomingWebhookEvent::DisputeOpened,
        RapydWebhookDisputeStatus::Review => IncomingWebhookEvent::DisputeChallenged,
        RapydWebhookDisputeStatus::Lose => IncomingWebhookEvent::DisputeLost,
        RapydWebhookDisputeStatus::Win => IncomingWebhookEvent::DisputeWon,
        RapydWebhookDisputeStatus::Unknown => IncomingWebhookEvent::EventNotSupported,
    }
}

impl Rapyd {
    /// The object a webhook refers to. A dispute refers to its original
    /// payment, not to the dispute. `parsed` is the body as parsed, `None`
    /// when it did not parse.
    pub fn get_webhook_object_reference_id(&self, parsed: Option<RapydIncomingWebhook>) -> (r: Result<
        ObjectReferenceId,
        ConnectorError,
    >)
        ensures
            match parsed {
                None => r matches Err(ConnectorError::WebhookEventTypeNotFound),
                Some(w) => match w.data {
                    WebhookData::Payment(p) => r matches Ok(ObjectReferenceId::PaymentId(id)) && id@ == p.id@,
                    WebhookData::Refund(f) => r matches Ok(ObjectReferenceId::RefundId(id)) && id@ == f.id@,
                    WebhookData::Dispute(d) => r matches Ok(ObjectReferenceId::PaymentId(id)) && id@
                        == d.original_transaction_id@,
                },
            },
    {
        match parsed {
            None => Err(ConnectorError::WebhookEventTypeNotFound),
            Some(w) => match w.data {
                WebhookData::Payment(p) => Ok(ObjectReferenceId::PaymentId(p.id)),
                WebhookData::Refund(f) => Ok(ObjectReferenceId::RefundId(f.id)),
                WebhookData::Dispute(d) => Ok(ObjectReferenceId::PaymentId(d.original_transaction_id)),
            },
        }
    }

    /// The canonical event of a webhook. Kinds this connector does not map
    /// give `EventNotSupported`, which is no error.
    pub fn get_webhook_event_type(&self, parsed: Option<RapydIncomingWebhook>) -> (r: Result<
        IncomingWebhookEvent,
        ConnectorError,
    >)
        ensures
            match parsed {
                None => r matches Err(ConnectorError::WebhookEventTypeNotFound),
                Some(w) => r matches Ok(e) && e == event_of(w.webhook_type, w.data),
            },
    {
        match parsed {
            None => Err(ConnectorError::WebhookEventTypeNotFound),
            Some(w) => Ok(
                match w.webhook_type {
                    RapydWebhookObjectEventType::PaymentCompleted | RapydWebhookObjectEventType::PaymentCaptured => IncomingWebhookEvent::PaymentIntentSuccess,
                    RapydWebhookObjectEventType::PaymentFailed => IncomingWebhookEvent::PaymentIntentFailure,
                    RapydWebhookObjectEventType::PaymentRefundFailed | RapydWebhookObjectEventType::PaymentRefundRejected => IncomingWebhookEvent::RefundFailure,
                    RapydWebhookObjectEventType::RefundCompleted => IncomingWebhookEvent::RefundSuccess,
                    RapydWebhookObjectEventType::PaymentDisputeCreated => IncomingWebhookEvent::DisputeOpened,
                    RapydWebhookObjectEventType::Unknown => IncomingWebhookEvent::EventNotSupported,
                    RapydWebhookObjectEventType::PaymentDisputeUpdated => match w.data {
                        WebhookData::Dispute(d) => dispute_event_of(d.status),
                        _ => IncomingWebhookEvent::EventNotSupported,
                    },
                },
            ),
        }
    }

    /// The object of a webhook, for the orchestrator to keep.
    pub fn get_webhook_resource_object(&self, parsed: Option<RapydIncomingWebhook>) -> (r: Result<
        WebhookResourceObject,
        ConnectorError,
    >)
        ensures
            match parsed {
                None => r matches Err(ConnectorError::WebhookEventTypeNotFound),
                Some(w) => match w.data {
                    WebhookData::Payment(p) => r matches Ok(WebhookResourceObject::Payment(resp)) && resp.data == Some(p)
                        && resp.status.error_code@ == NO_ERROR_CODE@ && resp.status.status is None
                        && resp.status.message is None && resp.status.response_code is None
                        && resp.status.operation_id is None,
                    WebhookData::Refund(f) => r == Ok::<WebhookResourceObject, ConnectorError>(
                        WebhookResourceObject::Refund(f),
                    ),
                    WebhookData::Dispute(d) => r == Ok::<WebhookResourceObject, ConnectorError>(
                        WebhookResourceObject::Dispute(d),
                    ),
                },
            },
    {
        match parsed {
            None => Err(ConnectorError::WebhookEventTypeNotFound),
            Some(w) => match w.data {
                WebhookData::Payment(p) => Ok(
                    WebhookResourceObject::Payment(
                        RapydPaymentsResponse {
                            status: Status {
                                error_code: NO_ERROR_CODE.to_owned(),
                                status: None,
                                message: None,
                                response_code: None,
                                operation_id: None,
                            },
                            data: Some(p),
                        },
                    ),
                ),
                WebhookData::Refund(f) => Ok(WebhookResourceObject::Refund(f)),
                WebhookData::Dispute(d) => Ok(WebhookResourceObject::Dispute(d)),
            },
        }
    }

    /// The dispute a webhook describes; `WebhookBodyDecodingFailed` when it
    /// is about something else.
    pub fn get_dispute_details(&self, parsed: Option<RapydIncomingWebhook>) -> (r: Result<DisputePayload, ConnectorError>)
        ensures
            match parsed {
                None => r matches Err(ConnectorError::WebhookEventTypeNotFound),
                Some(w) => match w.data {
                    WebhookData::Dispute(d) => r matches Ok(p) && p.amount@ == decimal_of(d.amount as int)
                        && p.currency@ == d.currency@ && p.dispute_stage == DisputeStage::Dispute
                        && p.connector_dispute_id@ == d.token@ && p.connector_reason == Some(
                        d.dispute_reason_description,
                    ) && p.connector_reason_code is None && p.challenge_required_by == d.due_date
                        && p.connector_status@ == d.status.spec_name() && p.created_at == d.created_at
                        && p.updated_at == d.updated_at,
                    _ => r matches Err(ConnectorError::WebhookBodyDecodingFailed),
                },
            },
    {
        match parsed {
            None => Err(ConnectorError::WebhookEventTypeNotFound),
            Some(w) => match w.data {
                WebhookData::Dispute(d) => Ok(
                    DisputePayload {
                        amount: i64_to_string(d.amount),
                        currency: d.currency,
                        dispute_stage: DisputeStage::Dispute,
                        connector_dispute_id: d.token,
                        connector_reason: Some(d.dispute_reason_description),
                        connector_reason_code: None,
                        challenge_required_by: d.due_date,
                        connector_status: d.status.name(),
                        created_at: d.created_at,
                        updated_at: d.updated_at,
                    },
                ),
                _ => Err(ConnectorError::WebhookBodyDecodingFailed),
            },
        }
    }
}

} // verus!
