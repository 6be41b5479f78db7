//! Translation of the provider's responses into canonical results.
use vstd::prelude::*;
use vstd::utf8::*;
use crate::external::{is_json, json_valid, utf8_to_string};
use crate::signing::Rapyd;
use crate::types::{AttemptStatus, ConnectorError, ErrorResponse};

verus! {

/// The status envelope of every provider response.
pub struct Status {
    pub error_code: String,
    pub status: Option<String>,
    pub message: Option<String>,
    pub response_code: Option<String>,
    pub operation_id: Option<String>,
}

/// The provider's state of a payment.
#[derive(PartialEq, Eq, Structural, Clone, Copy, Debug)]
pub enum RapydPaymentStatus {
    Active,
    Canceled,
    Closed,
    Error,
    Expired,
    Reversed,
    New,
}

/// What the provider waits for next on a payment.
#[derive(PartialEq, Eq, Structural, Clone, Copy, Debug)]
pub enum NextAction {
    ThreedsVerification,
    PendingCapture,
    NotApplicable,
    PendingConfirmation,
}

/// The payment object of a response.
pub struct ResponseData {
    pub id: String,
    pub amount: i64,
    pub status: RapydPaymentStatus,
    pub next_action: NextAction,
    pub redirect_url: Option<String>,
    pub failure_code: Option<String>,
    pub failure_message: Option<String>,
}

/// A payment response: the envelope and, on success, the payment.
pub struct RapydPaymentsResponse {
    pub status: Status,
    pub data: Option<ResponseData>,
}

/// The provider's state of a refund.
#[derive(PartialEq, Eq, Structural, Clone, Copy, Debug)]
pub enum RefundStatus {
    Completed,
    Error,
    Rejected,
    Pending,
}

/// The refund object of a response.
pub struct RefundResponseData {
    pub id: String,
    pub payment: String,
    pub amount: i64,
    pub currency: String,
    pub status: RefundStatus,
    pub failure_reason: Option<String>,
}

/// A refund response: the envelope and, on success, the refund.
pub struct RefundResponse {
    pub status: Status,
    pub data: Option<RefundResponseData>,
}

/// The canonical state of a refund.
#[derive(PartialEq, Eq, Structural, Clone, Copy, Debug)]
pub enum CanonicalRefundStatus {
    Success,
    Failure,
    Pending,
}

/// A payment the provider accepted.
pub struct PaymentsResponseData {
    pub connector_transaction_id: String,
    pub redirect_url: Option<String>,
}

/// The outcome of a payment flow: the attempt's state and either the
/// accepted payment or the provider's error.
pub struct PaymentsOutcome {
    pub status: AttemptStatus,
    pub response: Result<PaymentsResponseData, ErrorResponse>,
}

/// The outcome of a refund flow.
pub struct RefundsResponseData {
    pub connector_refund_id: String,
    pub refund_status: CanonicalRefundStatus,
}

/// Code of an error that the provider did not describe.
pub const NO_ERROR_CODE: &'static str = "No error code";

/// Message of an error whose body was not understood.
pub const UNSUPPORTED_ERROR_MESSAGE: &'static str = "Unsupported response type";

pub open spec fn opt_view(o: Option<String>) -> Option<Seq<char>> {
    match o {
        Some(s) => Some(s@),
        None => None,
    }
}

pub open spec fn text_or_empty(o: Option<String>) -> Seq<char> {
    match o {
        Some(s) => s@,
        None => Seq::empty(),
    }
}

/// The attempt state that a payment's state and next action stand for.
pub open spec fn attempt_status_of(status: RapydPaymentStatus, next_action: NextAction) -> AttemptStatus {
    match status {
        RapydPaymentStatus::Closed => AttemptStatus::Charged,
        RapydPaymentStatus::Active => match next_action {
            NextAction::ThreedsVerification | NextAction::PendingConfirmation => AttemptStatus::AuthenticationPending,
            NextAction::PendingCapture | NextAction::NotApplicable => AttemptStatus::Authorized,
        },
        RapydPaymentStatus::Canceled => AttemptStatus::Voided,
        RapydPaymentStatus::Error | RapydPaymentStatus::Expired | RapydPaymentStatus::Reversed => AttemptStatus::Failure,
        RapydPaymentStatus::New => AttemptStatus::Authorizing,
    }
}

pub open spec fn refund_status_of(status: RefundStatus) -> CanonicalRefundStatus {
    match status {
        RefundStatus::Completed => CanonicalRefundStatus::Success,
        RefundStatus::Error | RefundStatus::Rejected => CanonicalRefundStatus::Failure,
        RefundStatus::Pending => CanonicalRefundStatus::Pending,
    }
}

/// `e` is the canonical error with these parts and no attempt state or
/// transaction id.
pub open spec fn is_error(e: ErrorResponse, status_code: u16, code: Seq<char>, message: Seq<char>, reason: Option<Seq<char>>) -> bool {
    &&& e.status_code == status_code
    &&& e.code@ == code
    &&& e.message@ == message
    &&& opt_view(e.reason) == reason
    &&& e.attempt_status is None
    &&& e.connector_transaction_id is None
}

/// The canonical outcome of a well-formed payment response.
pub open spec fn payments_outcome_holds(o: PaymentsOutcome, resp: RapydPaymentsResponse, http_code: u16) -> bool {
    match resp.data {
        None => o.status == AttemptStatus::Failure && (o.response matches Err(e) && is_error(
            e,
            http_code,
            resp.status.error_code@,
            text_or_empty(resp.status.status),
            opt_view(resp.status.message),
        )),
        Some(data) => {
            let st = attempt_status_of(data.status, data.next_action);
            &&& o.status == st
            &&& if st == AttemptStatus::Failure {
                o.response matches Err(e) && is_error(
                    e,
                    http_code,
                    match data.failure_code {
                        Some(c) => c@,
                        None => resp.status.error_code@,
                    },
                    text_or_empty(resp.status.status),
                    opt_view(data.failure_message),
                )
            } else {
                o.response matches Ok(p) && p.connector_transaction_id@ == data.id@ && opt_view(p.redirect_url)
                    == opt_view(data.redirect_url)
            }
        },
    }
}

fn string_or_empty(o: Option<String>) -> (r: String)
    ensures
        r@ == text_or_empty(o),
{
    match o {
        Some(s) => s,
        None => String::new(),
    }
}

fn plain_error(status_code: u16, code: String, message: String, reason: Option<String>) -> (r: ErrorResponse)
    ensures
        is_error(r, status_code, code@, message@, opt_view(reason)),
{
    ErrorResponse { status_code, code, message, reason, attempt_status: None, connector_transaction_id: None }
}

/// The canonical outcome of a well-formed payment response.
pub fn payments_outcome(resp: RapydPaymentsResponse, http_code: u16) -> (r: PaymentsOutcome)
    ensures
        payments_outcome_holds(r, resp, http_code),
{
    let RapydPaymentsResponse { status, data } = resp;
    match data {
        None => {
            let message = string_or_empty(status.status);
            PaymentsOutcome {
                status: AttemptStatus::Failure,
                response: Err(plain_error(http_code, status.error_code, message, status.message)),
            }
        },
        Some(data) => {
            let st = match data.status {
                RapydPaymentStatus::Closed => AttemptStatus::Charged,
                RapydPaymentStatus::Active => match data.next_action {
                    NextAction::ThreedsVerification | NextAction::PendingConfirmation => AttemptStatus::AuthenticationPending,
                    NextAction::PendingCapture | NextAction::NotApplicable => AttemptStatus::Authorized,
                },
                RapydPaymentStatus::Canceled => AttemptStatus::Voided,
                RapydPaymentStatus::Error | RapydPaymentStatus::Expired | RapydPaymentStatus::Reversed => AttemptStatus::Failure,
                RapydPaymentStatus::New => AttemptStatus::Authorizing,
            };
            if st == AttemptStatus::Failure {
                let code = match data.failure_code {
                    Some(c) => c,
                    None => status.error_code,
                };
                let message = string_or_empty(status.status);
                PaymentsOutcome {
                    status: st,
                    response: Err(plain_error(http_code, code, message, data.failure_message)),
                }
            } else {
                PaymentsOutcome {
                    status: st,
                    response: Ok(PaymentsResponseData { connector_transaction_id: data.id, redirect_url: data.redirect_url }),
                }
            }
        },
    }
}

/// What becomes of a body that did not parse into the expected schema: JSON
/// of another shape, or bytes that are not UTF-8, is a deserialization failure;
/// text that is not JSON at all is kept as the reason of a canonical error.
pub open spec fn deserialization_failure_holds(r: Result<ErrorResponse, ConnectorError>, status_code: u16, raw: Seq<u8>) -> bool {
    if !valid_utf8(raw) || json_valid(decode_utf8(raw)) {
        r matches Err(ConnectorError::ResponseDeserializationFailed)
    } else {
        r matches Ok(e) && is_error(e, status_code, NO_ERROR_CODE@, UNSUPPORTED_ERROR_MESSAGE@, Some(decode_utf8(raw)))
    }
}

/// Handles a response body that did not parse into the expected schema.
pub fn handle_json_response_deserialization_failure(status_code: u16, raw: &[u8]) -> (r: Result<ErrorResponse, ConnectorError>)
    ensures
        deserialization_failure_holds(r, status_code, raw@),
{
    match utf8_to_string(raw) {
        None => Err(ConnectorError::ResponseDeserializationFailed),
        Some(text) => {
            if is_json(text.as_str()) {
                Err(ConnectorError::ResponseDeserializationFailed)
            } else {
                Ok(plain_error(status_code, NO_ERROR_CODE.to_owned(), UNSUPPORTED_ERROR_MESSAGE.to_owned(), Some(text)))
            }
        },
    }
}

impl Rapyd {
    /// Translates an error response. `parsed` is the body read as a payment
    /// response, `None` when it did not parse; `raw` is the body itself.
    pub fn build_error_response(
        &self,
        status_code: u16,
        parsed: Option<RapydPaymentsResponse>,
        raw: &[u8],
    ) -> (r: Result<ErrorResponse, ConnectorError>)
        ensures
            match parsed {
                Some(resp) => r matches Ok(e) && is_error(
                    e,
                    status_code,
                    resp.status.error_code@,
                    text_or_empty(resp.status.status),
                    opt_view(resp.status.message),
                ),
                None => deserialization_failure_holds(r, status_code, raw@),
            },
    {
        match parsed {
            Some(resp) => {
                let message = string_or_empty(resp.status.status);
                Ok(plain_error(status_code, resp.status.error_code, message, resp.status.message))
            },
            None => handle_json_response_deserialization_failure(status_code, raw),
        }
    }

    /// Translates the response of a payment flow (authorize, capture, void,
    /// sync). A body that did not parse is a deserialization failure.
    pub fn handle_payments_response(&self, http_code: u16, parsed: Option<RapydPaymentsResponse>) -> (r: Result<
        PaymentsOutcome,
        ConnectorError,
    >)
        ensures
            match parsed {
                None => r matches Err(ConnectorError::ResponseDeserializationFailed),
                Some(resp) => r matches Ok(o) && payments_outcome_holds(o, resp, http_code),
            },
    {
        match parsed {
            None => Err(ConnectorError::ResponseDeserializationFailed),
            Some(resp) => Ok(payments_outcome(resp, http_code)),
        }
    }

    /// Translates the response of a refund flow (execute or sync). A body that
    /// did not parse is a deserialization failure; a response without a refund
    /// object is a failed refund under the provider's error code.
    pub fn handle_refund_response(&self, parsed: Option<RefundResponse>) -> (r: Result<RefundsResponseData, ConnectorError>)
        ensures
            match parsed {
                None => r matches Err(ConnectorError::ResponseDeserializationFailed),
                Some(resp) => r matches Ok(d) && match resp.data {
                    Some(data) => d.connector_refund_id@ == data.id@ && d.refund_status == refund_status_of(data.status),
                    None => d.connector_refund_id@ == resp.status.error_code@ && d.refund_status
                        == CanonicalRefundStatus::Failure,
                },
            },
    {
        match parsed {
            None => Err(ConnectorError::ResponseDeserializationFailed),
            Some(resp) => match resp.data {
                Some(data) => {
                    let refund_status = match data.status {
                        RefundStatus::Completed => CanonicalRefundStatus::Success,
                        RefundStatus::Error | RefundStatus::Rejected => CanonicalRefundStatus::Failure,
                        RefundStatus::Pending => CanonicalRefundStatus::Pending,
                    };
                    Ok(RefundsResponseData { connector_refund_id: data.id, refund_status })
                },
                None => Ok(
                    RefundsResponseData {
                        connector_refund_id: resp.status.error_code,
                        refund_status: CanonicalRefundStatus::Failure,
                    },
                ),
            },
        }
    }
}

} // verus!
