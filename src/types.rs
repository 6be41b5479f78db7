//! Errors and canonical results shared by the flows and the webhook handling.
use vstd::prelude::*;

verus! {

/// Why an operation of the connector failed.
pub enum ConnectorError {
    /// The capture method is not offered by this connector.
    NotSupported { message: String, connector: String },
    MissingConnectorTransactionID,
    NotImplemented(String),
    ResponseDeserializationFailed,
    ResponseHandlingFailed,
    WebhookSourceVerificationFailed,
    WebhookEventTypeNotFound,
    WebhookBodyDecodingFailed,
    WebhookResourceObjectNotFound,
}

} // verus!

verus! {

/// HTTP methods used by the flows.
#[derive(PartialEq, Eq, Structural, Clone, Copy, Debug)]
pub enum Method {
    Get,
    Post,
    Delete,
}

/// One request header; `masked` marks a value that must not be logged.
pub struct Header {
    pub name: String,
    pub value: String,
    pub masked: bool,
}

impl Header {
    pub open spec fn view(&self) -> (Seq<char>, Seq<char>, bool) {
        (self.name@, self.value@, self.masked)
    }
}

/// The headers of a request as plain text triples.
pub open spec fn headers_view(hs: Seq<Header>) -> Seq<(Seq<char>, Seq<char>, bool)> {
    hs.map_values(|h: Header| h.view())
}

/// A request ready for transmission.
pub struct Request {
    pub method: Method,
    pub url: String,
    pub headers: Vec<Header>,
    pub body: Option<String>,
}

/// The canonical error handed back to the orchestrator.
pub struct ErrorResponse {
    pub status_code: u16,
    pub code: String,
    pub message: String,
    pub reason: Option<String>,
    pub attempt_status: Option<AttemptStatus>,
    pub connector_transaction_id: Option<String>,
}

/// The canonical state of a payment attempt.
#[derive(PartialEq, Eq, Structural, Clone, Copy, Debug)]
pub enum AttemptStatus {
    Charged,
    AuthenticationPending,
    Authorized,
    Voided,
    Failure,
    Authorizing,
}

/// How funds of an authorized payment are taken.
#[derive(PartialEq, Eq, Structural, Clone, Copy, Debug)]
pub enum CaptureMethod {
    Automatic,
    Manual,
    ManualMultiple,
    Scheduled,
}

impl CaptureMethod {
    pub open spec fn spec_name(self) -> Seq<char> {
        match self {
            CaptureMethod::Automatic => "automatic"@,
            CaptureMethod::Manual => "manual"@,
            CaptureMethod::ManualMultiple => "manual_multiple"@,
            CaptureMethod::Scheduled => "scheduled"@,
        }
    }

    /// The method's name in snake case.
    pub fn name(&self) -> (r: String)
        ensures
            r@ == self.spec_name(),
    {
        match self {
            CaptureMethod::Automatic => "automatic".to_owned(),
            CaptureMethod::Manual => "manual".to_owned(),
            CaptureMethod::ManualMultiple => "manual_multiple".to_owned(),
            CaptureMethod::Scheduled => "scheduled".to_owned(),
        }
    }
}

/// How an earlier attempt is referred to.
pub enum ResponseId {
    ConnectorTransactionId(String),
    EncodedData(String),
    NoResponseId,
}

} // verus!
