//! Outbound flows: for each operation, the signed request that carries it.
use vstd::prelude::*;
use vstd::string::StringExecFns;
use crate::external::{decimal_of, is_alphanumeric, nat_digits, random_alphanumeric, seconds_since_epoch};
use crate::signing::{sign_input_limit, signable, signature_of, string_to_sign, Rapyd, RapydAuthType};
use crate::types::{headers_view, CaptureMethod, ConnectorError, Header, Method, Request, ResponseId};

verus! {

/// Length of the random salt drawn for each request.
pub const SALT_LENGTH: usize = 12;

/// The method as it enters the signed text.
pub open spec fn method_name(m: Method) -> Seq<char> {
    match m {
        Method::Get => "get"@,
        Method::Post => "post"@,
        Method::Delete => "delete"@,
    }
}

pub open spec fn opt_text(body: Option<Seq<char>>) -> Seq<char> {
    match body {
        Some(b) => b,
        None => Seq::empty(),
    }
}

pub open spec fn opt_view(body: Option<String>) -> Option<Seq<char>> {
    match body {
        Some(b) => Some(b@),
        None => None,
    }
}

/// The headers of a signed request: the content type, then the signing
/// headers, the keys and salt and signature masked.
pub open spec fn signed_headers(
    access_key: Seq<char>,
    secret_key: Seq<char>,
    method: Method,
    path: Seq<char>,
    body: Seq<char>,
    timestamp: int,
    salt: Seq<char>,
) -> Seq<(Seq<char>, Seq<char>, bool)> {
    seq![
        ("Content-Type"@, "application/json"@, false),
        ("access_key"@, access_key, true),
        ("salt"@, salt, true),
        ("timestamp"@, decimal_of(timestamp), false),
        ("signature"@, signature_of(access_key, secret_key, method_name(method), path, body, timestamp, salt), true),
    ]
}

/// `r` is the request for `method` on `base_url` + `path`, carrying `body`,
/// signed with the given keys, timestamp and salt.
pub open spec fn is_signed_request(
    r: Request,
    access_key: Seq<char>,
    secret_key: Seq<char>,
    method: Method,
    base_url: Seq<char>,
    path: Seq<char>,
    body: Option<Seq<char>>,
    timestamp: int,
    salt: Seq<char>,
) -> bool {
    &&& r.method == method
    &&& r.url@ == base_url + path
    &&& headers_view(r.headers@) == signed_headers(access_key, secret_key, method, path, opt_text(body), timestamp, salt)
    &&& opt_view(r.body) == body
}

/// A salt as the provider expects it: twelve ASCII letters or digits.
pub open spec fn is_salt(salt: Seq<char>) -> bool {
    &&& salt.len() == SALT_LENGTH
    &&& forall|i: int| 0 <= i < salt.len() ==> is_alphanumeric(#[trigger] salt[i])
}

/// `r` is signed as `is_signed_request` says, for some timestamp not before
/// the epoch and some well-formed salt.
pub open spec fn is_fresh_signed_request(
    r: Request,
    access_key: Seq<char>,
    secret_key: Seq<char>,
    method: Method,
    base_url: Seq<char>,
    path: Seq<char>,
    body: Option<Seq<char>>,
) -> bool {
    exists|timestamp: i64, salt: Seq<char>|
        timestamp >= 0 && is_salt(salt) && #[trigger] is_signed_request(
            r,
            access_key,
            secret_key,
            method,
            base_url,
            path,
            body,
            timestamp as int,
            salt,
        )
}

/// What signing needs of inputs whose salt and timestamp are yet to be drawn.
pub open spec fn signable_fresh(
    access_key: Seq<char>,
    secret_key: Seq<char>,
    method: Method,
    path: Seq<char>,
    body: Seq<char>,
) -> bool {
    &&& method_name(method).len() + path.len() + access_key.len() + secret_key.len() + body.len() + 32
        < sign_input_limit()
    &&& secret_key.len() < sign_input_limit()
}

pub open spec fn pow10(k: nat) -> nat
    decreases k,
{
    if k == 0 {
        1
    } else {
        10 * pow10((k - 1) as nat)
    }
}

proof fn lemma_digits_len(n: nat, k: nat)
    requires
        k >= 1,
        n < pow10(k),
    ensures
        nat_digits(n).len() <= k,
    decreases n,
{
    if n >= 10 {
        let p = pow10((k - 1) as nat);
        assert(k >= 2) by {
            if k == 1 {
                reveal_with_fuel(pow10, 2);
            }
        }
        assert(n / 10 < p) by (nonlinear_arith)
            requires
                n < 10 * p,
        ;
        lemma_digits_len(n / 10, (k - 1) as nat);
    }
}

/// A 64-bit integer takes at most twenty characters in decimal.
pub proof fn lemma_decimal_len(i: i64)
    ensures
        decimal_of(i as int).len() <= 20,
{
    reveal_with_fuel(pow10, 20);
    assert(pow10(19) == 10_000_000_000_000_000_000nat);
    if i < 0 {
        lemma_digits_len((-(i as int)) as nat, 19);
    } else {
        lemma_digits_len(i as nat, 19);
    }
}

impl Rapyd {
    /// Builds the request for `method` on `base_url` + `path`, with its
    /// content type and signing headers.
    fn signed_request(
        &self,
        auth: &RapydAuthType,
        method: Method,
        base_url: &str,
        path: &str,
        body: Option<&str>,
        timestamp: i64,
        salt: &str,
    ) -> (r: Request)
        requires
            signable(
                auth.access_key@,
                auth.secret_key@,
                method_name(method),
                path@,
                opt_text(match body { Some(b) => Some(b@), None => None }),
                timestamp as int,
                salt@,
            ),
        ensures
            is_signed_request(
                r,
                auth.access_key@,
                auth.secret_key@,
                method,
                base_url@,
                path@,
                match body { Some(b) => Some(b@), None => None },
                timestamp as int,
                salt@,
            ),
    {
        let method_text: &str = match method {
            Method::Get => "get",
            Method::Post => "post",
            Method::Delete => "delete",
        };
        let body_text: &str = match body {
            Some(b) => b,
            None => "",
        };
        proof {
            reveal_strlit("");
        }
        assert(method_text@ == method_name(method));
        assert(body_text@ == opt_text(match body { Some(b) => Some(b@), None => None }));
        let signature = match self.generate_signature(auth, method_text, path, body_text, &timestamp, salt) {
            Ok(s) => s,
            Err(_) => String::new(),
        };
        let mut headers: Vec<Header> = Vec::new();
        headers.push(Header { name: "Content-Type".to_owned(), value: "application/json".to_owned(), masked: false });
        headers.push(Header { name: "access_key".to_owned(), value: auth.access_key.peek().to_owned(), masked: true });
        headers.push(Header { name: "salt".to_owned(), value: salt.to_owned(), masked: true });
        headers.push(Header { name: "timestamp".to_owned(), value: crate::external::i64_to_string(timestamp), masked: false });
        headers.push(Header { name: "signature".to_owned(), value: signature, masked: true });
        let mut url = base_url.to_owned();
        url.append(path);
        let body_owned = match body {
            Some(b) => Some(b.to_owned()),
            None => None,
        };
        let r = Request { method, url, headers, body: body_owned };
        assert(headers_view(r.headers@) =~= signed_headers(
            auth.access_key@,
            auth.secret_key@,
            method,
            path@,
            body_text@,
            timestamp as int,
            salt@,
        ));
        r
    }
}

/// The transaction id carried by a reference, if it carries one.
pub open spec fn transaction_id_of(id: ResponseId) -> Option<Seq<char>> {
    match id {
        ResponseId::ConnectorTransactionId(t) => Some(t@),
        _ => None,
    }
}

pub open spec fn payment_path(id: Seq<char>) -> Seq<char> {
    "/v1/payments/"@ + id
}

pub open spec fn capture_path(id: Seq<char>) -> Seq<char> {
    "/v1/payments/"@ + id + "/capture"@
}

/// The unit in which the provider takes amounts.
#[derive(PartialEq, Eq, Structural, Clone, Copy, Debug)]
pub enum CurrencyUnit {
    Base,
    Minor,
}

impl Rapyd {
    /// Amounts go to the provider in minor units (cents).
    pub fn get_currency_unit(&self) -> (r: CurrencyUnit)
        ensures
            r == CurrencyUnit::Minor,
    {
        CurrencyUnit::Minor
    }

    /// The content type of request bodies.
    pub fn common_get_content_type(&self) -> (r: &'static str)
        ensures
            r@ == "application/json"@,
    {
        "application/json"
    }

    /// Authentication travels in the signing headers of each request, so
    /// there are no standing authentication headers.
    pub fn get_auth_header(&self) -> (r: Vec<Header>)
        ensures
            r@.len() == 0,
    {
        Vec::new()
    }

    pub open spec fn spec_id() -> Seq<char> {
        "rapyd"@
    }

    /// The connector's name.
    pub fn id(&self) -> (r: &'static str)
        ensures
            r@ == Self::spec_id(),
    {
        "rapyd"
    }

    /// Accepts automatic and manual capture (automatic when none is given);
    /// rejects the others as not supported by this connector.
    pub fn validate_capture_method(&self, capture_method: Option<CaptureMethod>) -> (r: Result<(), ConnectorError>)
        ensures
            match capture_method {
                None | Some(CaptureMethod::Automatic) | Some(CaptureMethod::Manual) => r is Ok,
                Some(m) => r matches Err(ConnectorError::NotSupported { message, connector })
                    && message@ == m.spec_name() && connector@ == Self::spec_id(),
            },
    {
        let method = match capture_method {
            Some(m) => m,
            None => CaptureMethod::Automatic,
        };
        match method {
            CaptureMethod::Automatic | CaptureMethod::Manual => Ok(()),
            CaptureMethod::ManualMultiple | CaptureMethod::Scheduled => Err(
                ConnectorError::NotSupported { message: method.name(), connector: self.id().to_owned() },
            ),
        }
    }

    /// Authorization: a signed POST of `body` to `/v1/payments`.
    pub fn authorize_request(
        &self,
        auth: &RapydAuthType,
        base_url: &str,
        body: &str,
        timestamp: i64,
        salt: &str,
    ) -> (r: Request)
        requires
            signable(auth.access_key@, auth.secret_key@, "post"@, "/v1/payments"@, body@, timestamp as int, salt@),
        ensures
            is_signed_request(
                r,
                auth.access_key@,
                auth.secret_key@,
                Method::Post,
                base_url@,
                "/v1/payments"@,
                Some(body@),
                timestamp as int,
                salt@,
            ),
    {
        self.signed_request(auth, Method::Post, base_url, "/v1/payments", Some(body), timestamp, salt)
    }

    /// Capture: a signed POST of `body` to `/v1/payments/{id}/capture`.
    pub fn capture_request(
        &self,
        auth: &RapydAuthType,
        base_url: &str,
        connector_transaction_id: &str,
        body: &str,
        timestamp: i64,
        salt: &str,
    ) -> (r: Request)
        requires
            signable(
                auth.access_key@,
                auth.secret_key@,
                "post"@,
                capture_path(connector_transaction_id@),
                body@,
                timestamp as int,
                salt@,
            ),
        ensures
            is_signed_request(
                r,
                auth.access_key@,
                auth.secret_key@,
                Method::Post,
                base_url@,
                capture_path(connector_transaction_id@),
                Some(body@),
                timestamp as int,
                salt@,
            ),
    {
        let mut path = "/v1/payments/".to_owned();
        path.append(connector_transaction_id);
        path.append("/capture");
        self.signed_request(auth, Method::Post, base_url, path.as_str(), Some(body), timestamp, salt)
    }

    /// Void: a signed DELETE of `/v1/payments/{id}`, without a body.
    pub fn void_request(
        &self,
        auth: &RapydAuthType,
        base_url: &str,
        connector_transaction_id: &str,
        timestamp: i64,
        salt: &str,
    ) -> (r: Request)
        requires
            signable(
                auth.access_key@,
                auth.secret_key@,
                "delete"@,
                payment_path(connector_transaction_id@),
                Seq::empty(),
                timestamp as int,
                salt@,
            ),
        ensures
            is_signed_request(
                r,
                auth.access_key@,
                auth.secret_key@,
                Method::Delete,
                base_url@,
                payment_path(connector_transaction_id@),
                None,
                timestamp as int,
                salt@,
            ),
    {
        let mut path = "/v1/payments/".to_owned();
        path.append(connector_transaction_id);
        self.signed_request(auth, Method::Delete, base_url, path.as_str(), None, timestamp, salt)
    }

    /// Sync: a signed GET of `/v1/payments/{id}`, without a body. Fails with
    /// `MissingConnectorTransactionID`, building nothing, when the reference
    /// carries no transaction id.
    pub fn sync_request(
        &self,
        auth: &RapydAuthType,
        base_url: &str,
        connector_transaction_id: &ResponseId,
        timestamp: i64,
        salt: &str,
    ) -> (r: Result<Request, ConnectorError>)
        requires
            transaction_id_of(*connector_transaction_id) matches Some(id) ==> signable(
                auth.access_key@,
                auth.secret_key@,
                "get"@,
                payment_path(id),
                Seq::empty(),
                timestamp as int,
                salt@,
            ),
        ensures
            match transaction_id_of(*connector_transaction_id) {
                None => r matches Err(ConnectorError::MissingConnectorTransactionID),
                Some(id) => r matches Ok(req) && is_signed_request(
                    req,
                    auth.access_key@,
                    auth.secret_key@,
                    Method::Get,
                    base_url@,
                    payment_path(id),
                    None,
                    timestamp as int,
                    salt@,
                ),
            },
    {
        match connector_transaction_id {
            ResponseId::ConnectorTransactionId(id) => {
                let mut path = "/v1/payments/".to_owned();
                path.append(id.as_str());
                Ok(self.signed_request(auth, Method::Get, base_url, path.as_str(), None, timestamp, salt))
            },
            _ => Err(ConnectorError::MissingConnectorTransactionID),
        }
    }

    /// Refund: a signed POST of `body` to `/v1/refunds`.
    pub fn refund_request(
        &self,
        auth: &RapydAuthType,
        base_url: &str,
        body: &str,
        timestamp: i64,
        salt: &str,
    ) -> (r: Request)
        requires
            signable(auth.access_key@, auth.secret_key@, "post"@, "/v1/refunds"@, body@, timestamp as int, salt@),
        ensures
            is_signed_request(
                r,
                auth.access_key@,
                auth.secret_key@,
                Method::Post,
                base_url@,
                "/v1/refunds"@,
                Some(body@),
                timestamp as int,
                salt@,
            ),
    {
        self.signed_request(auth, Method::Post, base_url, "/v1/refunds", Some(body), timestamp, salt)
    }

    /// Mandate setup is not offered by the provider: always `NotImplemented`.
    pub fn setup_mandate_request(&self) -> (r: Result<Request, ConnectorError>)
        ensures
            r matches Err(ConnectorError::NotImplemented(flow)) && flow@ == "Setup Mandate flow for Rapyd"@,
    {
        Err(ConnectorError::NotImplemented("Setup Mandate flow for Rapyd".to_owned()))
    }
}

/// The timestamp a clock reading stands for: the seconds since the epoch,
/// capped at the largest `i64`; a clock before the epoch reads as the epoch.
pub open spec fn timestamp_of(reading: Option<u64>) -> int {
    match reading {
        Some(s) => if s <= i64::MAX as u64 {
            s as int
        } else {
            i64::MAX as int
        },
        None => 0,
    }
}

/// Turns a clock reading (whole seconds since the Unix epoch, `None` when
/// the clock stands before it) into the timestamp that requests carry.
pub fn unix_timestamp_from(reading: Option<u64>) -> (r: i64)
    ensures
        r as int == timestamp_of(reading),
        r >= 0,
{
    match reading {
        Some(s) => if s <= i64::MAX as u64 {
            s as i64
        } else {
            i64::MAX
        },
        None => 0,
    }
}

/// The current Unix time in seconds, as `unix_timestamp_from` reads the
/// clock. Whatever the clock says, it is not negative.
pub fn now_unix_timestamp() -> (r: i64)
    ensures
        r >= 0,
{
    unix_timestamp_from(seconds_since_epoch())
}

impl Rapyd {
    /// Draws a fresh timestamp and salt and builds the signed request with them.
    fn fresh_signed_request(
        &self,
        auth: &RapydAuthType,
        method: Method,
        base_url: &str,
        path: &str,
        body: Option<&str>,
    ) -> (r: Request)
        requires
            signable_fresh(
                auth.access_key@,
                auth.secret_key@,
                method,
                path@,
                opt_text(match body { Some(b) => Some(b@), None => None }),
            ),
        ensures
            is_fresh_signed_request(
                r,
                auth.access_key@,
                auth.secret_key@,
                method,
                base_url@,
                path@,
                match body { Some(b) => Some(b@), None => None },
            ),
    {
        let timestamp = now_unix_timestamp();
        let salt = random_alphanumeric(SALT_LENGTH);
        proof {
            lemma_decimal_len(timestamp);
        }
        let r = self.signed_request(auth, method, base_url, path, body, timestamp, salt.as_str());
        assert(is_salt(salt@));
        r
    }

    /// Authorization with a fresh timestamp and salt.
    pub fn build_authorize_request(&self, auth: &RapydAuthType, base_url: &str, body: &str) -> (r: Request)
        requires
            signable_fresh(auth.access_key@, auth.secret_key@, Method::Post, "/v1/payments"@, body@),
        ensures
            is_fresh_signed_request(
                r,
                auth.access_key@,
                auth.secret_key@,
                Method::Post,
                base_url@,
                "/v1/payments"@,
                Some(body@),
            ),
    {
        self.fresh_signed_request(auth, Method::Post, base_url, "/v1/payments", Some(body))
    }

    /// Capture with a fresh timestamp and salt.
    pub fn build_capture_request(
        &self,
        auth: &RapydAuthType,
        base_url: &str,
        connector_transaction_id: &str,
        body: &str,
    ) -> (r: Request)
        requires
            signable_fresh(
                auth.access_key@,
                auth.secret_key@,
                Method::Post,
                capture_path(connector_transaction_id@),
                body@,
            ),
        ensures
            is_fresh_signed_request(
                r,
                auth.access_key@,
                auth.secret_key@,
                Method::Post,
                base_url@,
                capture_path(connector_transaction_id@),
                Some(body@),
            ),
    {
        let mut path = "/v1/payments/".to_owned();
        path.append(connector_transaction_id);
        path.append("/capture");
        self.fresh_signed_request(auth, Method::Post, base_url, path.as_str(), Some(body))
    }

    /// Void with a fresh timestamp and salt.
    pub fn build_void_request(&self, auth: &RapydAuthType, base_url: &str, connector_transaction_id: &str) -> (r:
        Request)
        requires
            signable_fresh(
                auth.access_key@,
                auth.secret_key@,
                Method::Delete,
                payment_path(connector_transaction_id@),
                Seq::empty(),
            ),
        ensures
            is_fresh_signed_request(
                r,
                auth.access_key@,
                auth.secret_key@,
                Method::Delete,
                base_url@,
                payment_path(connector_transaction_id@),
                None,
            ),
    {
        let mut path = "/v1/payments/".to_owned();
        path.append(connector_transaction_id);
        self.fresh_signed_request(auth, Method::Delete, base_url, path.as_str(), None)
    }

    /// Sync with a fresh timestamp and salt; `MissingConnectorTransactionID`
    /// when the reference carries no transaction id.
    pub fn build_sync_request(
        &self,
        auth: &RapydAuthType,
        base_url: &str,
        connector_transaction_id: &ResponseId,
    ) -> (r: Result<Request, ConnectorError>)
        requires
            transaction_id_of(*connector_transaction_id) matches Some(id) ==> signable_fresh(
                auth.access_key@,
                auth.secret_key@,
                Method::Get,
                payment_path(id),
                Seq::empty(),
            ),
        ensures
            match transaction_id_of(*connector_transaction_id) {
                None => r matches Err(ConnectorError::MissingConnectorTransactionID),
                Some(id) => r matches Ok(req) && is_fresh_signed_request(
                    req,
                    auth.access_key@,
                    auth.secret_key@,
                    Method::Get,
                    base_url@,
                    payment_path(id),
                    None,
                ),
            },
    {
        match connector_transaction_id {
            ResponseId::ConnectorTransactionId(id) => {
                let mut path = "/v1/payments/".to_owned();
                path.append(id.as_str());
                Ok(self.fresh_signed_request(auth, Method::Get, base_url, path.as_str(), None))
            },
            _ => Err(ConnectorError::MissingConnectorTransactionID),
        }
    }

    /// Refund with a fresh timestamp and salt.
    pub fn build_refund_request(&self, auth: &RapydAuthType, base_url: &str, body: &str) -> (r: Request)
        requires
            signable_fresh(auth.access_key@, auth.secret_key@, Method::Post, "/v1/refunds"@, body@),
        ensures
            is_fresh_signed_request(
                r,
                auth.access_key@,
                auth.secret_key@,
                Method::Post,
                base_url@,
                "/v1/refunds"@,
                Some(body@),
            ),
    {
        self.fresh_signed_request(auth, Method::Post, base_url, "/v1/refunds", Some(body))
    }
}

} // verus!
