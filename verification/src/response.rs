//! Response capture and classification.
//!
//! An [`FcmResponse`] holds what one delivery attempt returned: the HTTP
//! status code, the JSON body, and the parsed `Retry-After` header.
//! Classification derives an [`FcmResponseError`] and a
//! [`RecomendedAction`] from it; both are pure functions of the response,
//! recomputed on demand and never stored.

use vstd::prelude::*;

verus! {

use vstd::string::StringExecFns;
use crate::json::JsonData;
use crate::json::JsonValue;
use crate::numtext::parse_u64;
use crate::numtext::parse_u64_spec;

/// Error cases which can be detected from an [`FcmResponse`].
#[derive(Debug, Clone, Copy, PartialEq, Eq, Structural)]
pub enum FcmResponseError {
    /// HTTP 400
    InvalidArgument,
    /// HTTP 404
    Unregistered,
    /// HTTP 403
    SenderIdMismatch,
    /// HTTP 429
    QuotaExceeded,
    /// HTTP 503
    Unavailable,
    /// HTTP 500
    Internal,
    /// HTTP 401
    ThirdPartyAuth,
    /// `UNSPECIFIED_ERROR` marker in the body, with no matching status.
    Unspecified,
    /// Response is not successful and neither the status code nor the
    /// body yields a match.
    Unknown,
}

/// The error named by the HTTP status code, for the fixed set of codes
/// the endpoint documents; any other code names no error by itself.
pub open spec fn status_error(code: u16) -> Option<FcmResponseError> {
    if code == 400 {
        Some(FcmResponseError::InvalidArgument)
    } else if code == 404 {
        Some(FcmResponseError::Unregistered)
    } else if code == 403 {
        Some(FcmResponseError::SenderIdMismatch)
    } else if code == 429 {
        Some(FcmResponseError::QuotaExceeded)
    } else if code == 503 {
        Some(FcmResponseError::Unavailable)
    } else if code == 500 {
        Some(FcmResponseError::Internal)
    } else if code == 401 {
        Some(FcmResponseError::ThirdPartyAuth)
    } else {
        None
    }
}

/// The error code read from the body where the API reference puts it: a
/// string under the top-level `error_code` member.
pub open spec fn body_error_api_reference(d: JsonData) -> Option<Seq<char>> {
    match d.get("error_code"@) {
        Some(v) => v.as_str(),
        None => None,
    }
}

/// The error code read from the body where real responses put it: a
/// string under `status` inside the top-level `error` member.
pub open spec fn body_error_real_response(d: JsonData) -> Option<Seq<char>> {
    match d.get("error"@) {
        Some(e) => match e.get("status"@) {
            Some(v) => v.as_str(),
            None => None,
        },
        None => None,
    }
}

/// The error code read from the body: the API-reference location first,
/// the real-response location as the fallback.
pub open spec fn body_error(d: JsonData) -> Option<Seq<char>> {
    match body_error_api_reference(d) {
        Some(s) => Some(s),
        None => body_error_real_response(d),
    }
}

/// The classification of a response: the status code is authoritative
/// when it matches the fixed set; otherwise an unspecified-error marker
/// in the body, then the absence of a resource name, decide.
pub open spec fn detect_spec(code: u16, d: JsonData) -> Option<FcmResponseError> {
    match status_error(code) {
        Some(e) => Some(e),
        None => if body_error(d) == Some("UNSPECIFIED_ERROR"@) {
            Some(FcmResponseError::Unspecified)
        } else if d.get("name"@) is None {
            Some(FcmResponseError::Unknown)
        } else {
            None
        },
    }
}

impl FcmResponseError {
    /// Maps an HTTP status code to its named error, for the fixed set of
    /// codes; every other code is refused.
    pub fn try_from(value: u16) -> (r: Result<Self, ()>)
        ensures
            match status_error(value) {
                Some(e) => r == Ok::<FcmResponseError, ()>(e),
                None => r is Err,
            },
    {
        match value {
            400 => Ok(Self::InvalidArgument),
            404 => Ok(Self::Unregistered),
            403 => Ok(Self::SenderIdMismatch),
            429 => Ok(Self::QuotaExceeded),
            503 => Ok(Self::Unavailable),
            500 => Ok(Self::Internal),
            401 => Ok(Self::ThirdPartyAuth),
            _ => Err(()),
        }
    }

    /// Reads the error code from the body's API-reference location.
    fn get_error_using_api_reference(response_json: &JsonValue) -> (r: Option<&String>)
        ensures
            match r {
                Some(s) => body_error_api_reference(response_json.deep()) == Some(s@),
                None => body_error_api_reference(response_json.deep()) is None,
            },
    {
        match response_json.get("error_code") {
            Some(v) => v.as_str(),
            None => None,
        }
    }

    /// Reads the error code from the body's real-response location.
    fn get_error_using_real_response(response_json: &JsonValue) -> (r: Option<&String>)
        ensures
            match r {
                Some(s) => body_error_real_response(response_json.deep()) == Some(s@),
                None => body_error_real_response(response_json.deep()) is None,
            },
    {
        match response_json.get("error") {
            Some(e) => match e.get("status") {
                Some(v) => v.as_str(),
                None => None,
            },
            None => None,
        }
    }

    /// Reads the error code from the body, trying both locations.
    fn get_error(response_json: &JsonValue) -> (r: Option<&String>)
        ensures
            match r {
                Some(s) => body_error(response_json.deep()) == Some(s@),
                None => body_error(response_json.deep()) is None,
            },
    {
        match Self::get_error_using_api_reference(response_json) {
            Some(s) => Some(s),
            None => Self::get_error_using_real_response(response_json),
        }
    }

    /// Classifies a response from its status code and JSON body.
    pub fn detect_from(http_status_code: u16, response_json: &JsonValue) -> (r: Option<Self>)
        ensures
            r == detect_spec(http_status_code, response_json.deep()),
    {
        match Self::try_from(http_status_code) {
            Ok(e) => Some(e),
            Err(_) => {
                let marker = String::from_str("UNSPECIFIED_ERROR");
                let is_unspecified = match Self::get_error(response_json) {
                    Some(s) => *s == marker,
                    None => false,
                };
                if is_unspecified {
                    Some(Self::Unspecified)
                } else if response_json.get("name").is_none() {
                    Some(Self::Unknown)
                } else {
                    None
                }
            },
        }
    }
}

/// What chrono's RFC-2822 parser yields for a given text: the named
/// instant as whole seconds since the Unix epoch, or nothing when the
/// text is not a valid RFC-2822 date-time.  A function of the text alone.
pub uninterp spec fn rfc2822_instant(s: Seq<char>) -> Option<i64>;

/// Relies on chrono's `DateTime::parse_from_rfc2822` to parse an
/// RFC-2822 date-time, and on `DateTime::timestamp` to read the parsed
/// instant as whole seconds since the Unix epoch; the error text is
/// chrono's own.
#[verifier::external_body]
fn parse_rfc2822_seconds(s: &str) -> (r: Result<i64, String>)
    ensures
        match r {
            Ok(t) => rfc2822_instant(s@) == Some(t),
            Err(_) => rfc2822_instant(s@) is None,
        },
{
    match chrono::DateTime::parse_from_rfc2822(s) {
        Ok(d) => Ok(d.timestamp()),
        Err(e) => Err(e.to_string()),
    }
}

/// Relies on chrono's `Utc::now` for the current time, read through
/// `DateTime::timestamp` as whole seconds since the Unix epoch; nothing
/// is assumed of the value.
#[verifier::external_body]
fn current_epoch_seconds() -> i64 {
    chrono::Utc::now().timestamp()
}

/// HTTP `Retry-After` header value.
#[derive(Debug, Clone, Copy, PartialEq, Eq, Structural)]
pub enum RetryAfter {
    /// Amount of time to wait until retrying is allowed, in whole
    /// seconds.
    Delay(u64),
    /// A point in time until which retrying is to wait, as whole seconds
    /// since the Unix epoch.
    DateTime(i64),
}

/// What parsing a `Retry-After` header value yields: the
/// integer-seconds form first, then the RFC-2822 date form; any other
/// text parses as nothing.
pub open spec fn retry_after_spec(s: Seq<char>) -> Option<RetryAfter> {
    match parse_u64_spec(s) {
        Some(n) => Some(RetryAfter::Delay(n)),
        None => match rfc2822_instant(s) {
            Some(t) => Some(RetryAfter::DateTime(t)),
            None => None,
        },
    }
}

impl RetryAfter {
    /// The wait in whole seconds as seen from `now`: a relative delay is
    /// itself; an absolute instant waits until it is reached, and an
    /// instant at or before `now` waits nothing.
    pub open spec fn wait_secs(self, now: i64) -> u64 {
        match self {
            RetryAfter::Delay(d) => d,
            RetryAfter::DateTime(t) => if t > now {
                (t - now) as u64
            } else {
                0
            },
        }
    }

    /// Parses a `Retry-After` header value: the integer-seconds form
    /// first, then the RFC-2822 date form; anything else fails with the
    /// date parser's error text.
    pub fn from_str(s: &str) -> (r: Result<Self, String>)
        ensures
            match retry_after_spec(s@) {
                Some(ra) => r == Ok::<RetryAfter, String>(ra),
                None => r is Err,
            },
    {
        match parse_u64(s) {
            Some(n) => Ok(RetryAfter::Delay(n)),
            None => match parse_rfc2822_seconds(s) {
                Ok(t) => Ok(RetryAfter::DateTime(t)),
                Err(e) => Err(e),
            },
        }
    }

    /// Wait time in whole seconds, calculated from the current operating
    /// system time.  For a relative delay the result is the delay itself,
    /// whatever the clock says.
    pub fn wait_time(&self) -> (r: u64)
        ensures
            self matches RetryAfter::Delay(d) ==> r == d,
    {
        let now = current_epoch_seconds();
        self.wait_time_with_time_provider(now)
    }

    /// Wait time in whole seconds as seen from the given instant.
    pub fn wait_time_with_time_provider(&self, now: i64) -> (r: u64)
        ensures
            r == self.wait_secs(now),
    {
        match self {
            RetryAfter::Delay(d) => *d,
            RetryAfter::DateTime(t) => {
                if *t > now {
                    let diff: i128 = (*t as i128) - (now as i128);
                    diff as u64
                } else {
                    0
                }
            },
        }
    }
}

/// What one delivery attempt returned, captured once and immutable: the
/// sole input to classification.
#[derive(Debug)]
pub struct FcmResponse {
    /// The HTTP status code.
    pub http_status_code: u16,
    /// The JSON body; an unparseable body is captured as an empty
    /// object.
    pub response_json_object: JsonValue,
    /// The parsed `Retry-After` header, when the response carried one.
    pub retry_after: Option<RetryAfter>,
}

/// Recommended wait before a retry.
#[derive(Debug, Clone, Copy, PartialEq, Eq, Structural)]
pub enum RecomendedWaitTime {
    /// Initial wait in whole seconds for a caller-implemented
    /// exponential back-off: wait this long before the first retry and
    /// grow the wait for later ones.
    InitialWaitTime(u64),
    /// Specific wait from the response's `Retry-After` header.
    SpecificWaitTime(RetryAfter),
}

/// Error handling action which the caller should take, based on the
/// classification and the optional `Retry-After` value.
#[derive(Debug, Clone, Copy, PartialEq, Eq, Structural)]
pub enum RecomendedAction {
    /// The app token sent with the message is missing or unregistered
    /// and should be removed.
    RemoveFcmAppToken,
    /// The message content itself is malformed; do not resend it
    /// unmodified.
    FixMessageContent,
    /// Client and server use different sender IDs; fix the
    /// configuration.
    CheckSenderIdEquality,
    /// Reduce the overall sending rate, wait the recommended time, then
    /// resend.
    ReduceMessageRateAndRetry(RecomendedWaitTime),
    /// Transient backend failure: wait the recommended time, then
    /// resend.
    Retry(RecomendedWaitTime),
    /// Credentials for iOS or web push are invalid; operator action is
    /// required.
    CheckIosAndWebCredentials,
    /// Nothing specific can be recommended.
    HandleUnknownError,
}

/// The recommended action for a classification, given the optional
/// `Retry-After` value: a total function of the two.
pub open spec fn analyze_spec(
    error: Option<FcmResponseError>,
    retry_after: Option<RetryAfter>,
) -> Option<RecomendedAction> {
    match error {
        None => None,
        Some(e) => Some(
            match e {
                FcmResponseError::Unspecified => RecomendedAction::HandleUnknownError,
                FcmResponseError::Unknown => RecomendedAction::HandleUnknownError,
                FcmResponseError::Unregistered => RecomendedAction::RemoveFcmAppToken,
                FcmResponseError::InvalidArgument => RecomendedAction::FixMessageContent,
                FcmResponseError::SenderIdMismatch => RecomendedAction::CheckSenderIdEquality,
                FcmResponseError::QuotaExceeded => RecomendedAction::ReduceMessageRateAndRetry(
                    match retry_after {
                        Some(ra) => RecomendedWaitTime::SpecificWaitTime(ra),
                        None => RecomendedWaitTime::InitialWaitTime(60),
                    },
                ),
                FcmResponseError::Unavailable => RecomendedAction::Retry(
                    match retry_after {
                        Some(ra) => RecomendedWaitTime::SpecificWaitTime(ra),
                        None => RecomendedWaitTime::InitialWaitTime(10),
                    },
                ),
                FcmResponseError::Internal => RecomendedAction::Retry(
                    RecomendedWaitTime::InitialWaitTime(10),
                ),
                FcmResponseError::ThirdPartyAuth => RecomendedAction::CheckIosAndWebCredentials,
            },
        ),
    }
}

impl FcmResponse {
    /// The classification of this response: a pure function of the
    /// captured status code and body.
    pub open spec fn classification(self) -> Option<FcmResponseError> {
        detect_spec(self.http_status_code, self.response_json_object.deep())
    }

    /// The recommended action for this response: a pure function of the
    /// classification and the captured `Retry-After` value.
    pub open spec fn recommendation(self) -> Option<RecomendedAction> {
        analyze_spec(self.classification(), self.retry_after)
    }

    /// Captures one delivery attempt's response.
    pub fn new(
        http_status_code: u16,
        response_json_object: JsonValue,
        retry_after: Option<RetryAfter>,
    ) -> (r: Self)
        ensures
            r == (FcmResponse { http_status_code, response_json_object, retry_after }),
    {
        Self { http_status_code, response_json_object, retry_after }
    }

    /// The recommended error handling action; `None` means the message
    /// was sent successfully.
    pub fn recommended_error_handling_action(&self) -> (r: Option<RecomendedAction>)
        ensures
            r == self.recommendation(),
    {
        RecomendedAction::analyze(self)
    }

    /// The detected error; `None` means the message was sent
    /// successfully.  The result is a function of the captured response
    /// alone, so repeated calls agree.
    pub fn error(&self) -> (r: Option<FcmResponseError>)
        ensures
            r == self.classification(),
    {
        FcmResponseError::detect_from(self.http_status_code, &self.response_json_object)
    }

    /// The captured HTTP status code.
    pub fn http_status_code(&self) -> (r: u16)
        ensures
            r == self.http_status_code,
    {
        self.http_status_code
    }

    /// The captured JSON body.
    pub fn json(&self) -> (r: &JsonValue)
        ensures
            r == &self.response_json_object,
    {
        &self.response_json_object
    }

    /// The captured `Retry-After` value, when one was present.
    pub fn retry_after(&self) -> (r: Option<&RetryAfter>)
        ensures
            match r {
                Some(ra) => self.retry_after == Some(*ra),
                None => self.retry_after is None,
            },
    {
        self.retry_after.as_ref()
    }
}

impl RecomendedAction {
    /// Derives the recommended action of a response.
    fn analyze(response: &FcmResponse) -> (r: Option<RecomendedAction>)
        ensures
            r == response.recommendation(),
    {
        let error = match response.error() {
            Some(e) => e,
            None => {
                return None;
            },
        };
        let action = match error {
            FcmResponseError::Unspecified => RecomendedAction::HandleUnknownError,
            FcmResponseError::Unknown => RecomendedAction::HandleUnknownError,
            FcmResponseError::Unregistered => RecomendedAction::RemoveFcmAppToken,
            FcmResponseError::InvalidArgument => RecomendedAction::FixMessageContent,
            FcmResponseError::SenderIdMismatch => RecomendedAction::CheckSenderIdEquality,
            FcmResponseError::QuotaExceeded => {
                let wait_time = if let Some(ra) = response.retry_after() {
                    RecomendedWaitTime::SpecificWaitTime(*ra)
                } else {
                    RecomendedWaitTime::InitialWaitTime(60)
                };
                RecomendedAction::ReduceMessageRateAndRetry(wait_time)
            },
            FcmResponseError::Unavailable => {
                let wait_time = if let Some(ra) = response.retry_after() {
                    RecomendedWaitTime::SpecificWaitTime(*ra)
                } else {
                    RecomendedWaitTime::InitialWaitTime(10)
                };
                RecomendedAction::Retry(wait_time)
            },
            FcmResponseError::Internal => {
                RecomendedAction::Retry(RecomendedWaitTime::InitialWaitTime(10))
            },
            FcmResponseError::ThirdPartyAuth => RecomendedAction::CheckIosAndWebCredentials,
        };
        Some(action)
    }
}

/// Status 404 classifies as `Unregistered` and recommends removing the
/// app token, whatever the body and the `Retry-After` header hold.
pub proof fn lemma_unregistered_action(resp: FcmResponse)
    requires
        resp.http_status_code == 404,
    ensures
        resp.classification() == Some(FcmResponseError::Unregistered),
        resp.recommendation() == Some(RecomendedAction::RemoveFcmAppToken),
{
}

/// Status 429 classifies as `QuotaExceeded` and recommends reducing the
/// rate, waiting the header's value when one is present and the
/// 60-second floor when none is, whatever the body holds.
pub proof fn lemma_quota_exceeded_action(resp: FcmResponse)
    requires
        resp.http_status_code == 429,
    ensures
        resp.classification() == Some(FcmResponseError::QuotaExceeded),
        resp.recommendation() == Some(
            RecomendedAction::ReduceMessageRateAndRetry(
                match resp.retry_after {
                    Some(ra) => RecomendedWaitTime::SpecificWaitTime(ra),
                    None => RecomendedWaitTime::InitialWaitTime(60),
                },
            ),
        ),
{
}

/// Status 503 classifies as `Unavailable` and recommends a retry,
/// waiting the header's value when one is present and the 10-second
/// floor when none is, whatever the body holds.
pub proof fn lemma_unavailable_action(resp: FcmResponse)
    requires
        resp.http_status_code == 503,
    ensures
        resp.classification() == Some(FcmResponseError::Unavailable),
        resp.recommendation() == Some(
            RecomendedAction::Retry(
                match resp.retry_after {
                    Some(ra) => RecomendedWaitTime::SpecificWaitTime(ra),
                    None => RecomendedWaitTime::InitialWaitTime(10),
                },
            ),
        ),
{
}

/// Status 500 classifies as `Internal` and always recommends a retry
/// after the 10-second floor, whatever the body holds and even when a
/// stray `Retry-After` header is present.
pub proof fn lemma_internal_action(resp: FcmResponse)
    requires
        resp.http_status_code == 500,
    ensures
        resp.classification() == Some(FcmResponseError::Internal),
        resp.recommendation() == Some(
            RecomendedAction::Retry(RecomendedWaitTime::InitialWaitTime(10)),
        ),
{
}

} // verus!
