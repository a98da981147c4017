//! Client configuration and the computing parts of the send path.
//!
//! One send call obtains a token, builds the endpoint URL, serializes
//! the message envelope, performs the HTTP POST, and captures the
//! response.  The HTTP and token exchanges are the caller's network
//! work; what stands here is everything the call computes: the URL, the
//! error taxonomy, and the assembly of the captured response from the
//! wire parts, including the `Retry-After` handling.

use vstd::prelude::*;

verus! {

use vstd::string::StringExecFns;
use crate::json::JsonValue;
use crate::oauth::YupOauth2Error;
use crate::response::FcmResponse;
use crate::response::RetryAfter;
use crate::response::retry_after_spec;

/// Errors of the client, fatal to construction or to one send call.
#[derive(Debug)]
pub enum FcmClientError {
    /// Transport failure: the request never completed; the text is the
    /// HTTP library's.
    Reqwest(String),
    /// Obtaining a token failed.
    Oauth(YupOauth2Error),
    /// Resolving the key path from the environment failed; the text is
    /// the resolver's.
    Dotenvy(String),
    /// The `Retry-After` header value is not a valid string.
    RetryAfterHttpHeaderIsNotString,
    /// The `Retry-After` header value is neither integer seconds nor an
    /// RFC-2822 date.
    RetryAfterHttpHeaderInvalid { error: String, value: String },
}

impl FcmClientError {
    /// Whether this error means the token issuer answered but handed
    /// out no token.
    pub open spec fn access_token_missing_spec(self) -> bool {
        match self {
            FcmClientError::Oauth(e) => e.access_token_missing_spec(),
            _ => false,
        }
    }

    /// If this is `true` then most likely the current service account
    /// key is invalid.
    pub fn is_access_token_missing_even_if_server_requests_completed(&self) -> (r: bool)
        ensures
            r == self.access_token_missing_spec(),
    {
        match self {
            FcmClientError::Oauth(e) => {
                e.is_access_token_missing_even_if_server_requests_completed()
            },
            _ => false,
        }
    }
}

/// Builder for the client: which credential to use, where to cache
/// tokens, the request timeout, and the dry-run flag.
#[derive(Debug)]
pub struct FcmClientBuilder {
    /// The service account key as a JSON string, when given directly.
    pub service_account_key_json_string: Option<String>,
    /// Path to the service account key JSON file.
    pub service_account_key_json_path: Option<String>,
    /// Path to the token cache JSON file.
    pub token_cache_json_path: Option<String>,
    /// Timeout for FCM requests, in milliseconds.
    pub fcm_request_timeout: Option<u64>,
    /// Whether sends are dry runs.
    pub dry_run: Option<bool>,
}

impl FcmClientBuilder {
    /// A builder with every option unset.
    pub fn new() -> (r: Self)
        ensures
            r.service_account_key_json_string is None,
            r.service_account_key_json_path is None,
            r.token_cache_json_path is None,
            r.fcm_request_timeout is None,
            r.dry_run is None,
    {
        FcmClientBuilder {
            service_account_key_json_string: None,
            service_account_key_json_path: None,
            token_cache_json_path: None,
            fcm_request_timeout: None,
            dry_run: None,
        }
    }

    /// Sets the path to the service account key JSON file.  The default
    /// is the path named by the `GOOGLE_APPLICATION_CREDENTIALS`
    /// environment variable (which can also live in a `.env` file).
    pub fn service_account_key_json_path(self, service_account_key_json_path: String) -> (r: Self)
        ensures
            r.service_account_key_json_path == Some(service_account_key_json_path),
            r.service_account_key_json_string == self.service_account_key_json_string,
            r.token_cache_json_path == self.token_cache_json_path,
            r.fcm_request_timeout == self.fcm_request_timeout,
            r.dry_run == self.dry_run,
    {
        FcmClientBuilder { service_account_key_json_path: Some(service_account_key_json_path), ..self }
    }

    /// Sets the timeout for FCM requests, in milliseconds.  The default
    /// is no timeout; a configured value should be at least ten seconds,
    /// the minimum the endpoint's documentation names.
    pub fn fcm_request_timeout(self, fcm_request_timeout: u64) -> (r: Self)
        ensures
            r.fcm_request_timeout == Some(fcm_request_timeout),
            r.service_account_key_json_string == self.service_account_key_json_string,
            r.service_account_key_json_path == self.service_account_key_json_path,
            r.token_cache_json_path == self.token_cache_json_path,
            r.dry_run == self.dry_run,
    {
        FcmClientBuilder { fcm_request_timeout: Some(fcm_request_timeout), ..self }
    }

    /// Sets the path to the token cache JSON file.  The default is no
    /// token cache file.
    pub fn token_cache_json_path(self, token_cache_json_path: String) -> (r: Self)
        ensures
            r.token_cache_json_path == Some(token_cache_json_path),
            r.service_account_key_json_string == self.service_account_key_json_string,
            r.service_account_key_json_path == self.service_account_key_json_path,
            r.fcm_request_timeout == self.fcm_request_timeout,
            r.dry_run == self.dry_run,
    {
        FcmClientBuilder { token_cache_json_path: Some(token_cache_json_path), ..self }
    }

    /// Sets the service account key JSON directly; this overrides the
    /// key file path.
    pub fn service_account_key_json_string(
        self,
        service_account_key_json_string: String,
    ) -> (r: Self)
        ensures
            r.service_account_key_json_string == Some(service_account_key_json_string),
            r.service_account_key_json_path == self.service_account_key_json_path,
            r.token_cache_json_path == self.token_cache_json_path,
            r.fcm_request_timeout == self.fcm_request_timeout,
            r.dry_run == self.dry_run,
    {
        FcmClientBuilder {
            service_account_key_json_string: Some(service_account_key_json_string),
            ..self
        }
    }

    /// Sets the dry-run flag.
    pub fn dry_run(self, dry_run: bool) -> (r: Self)
        ensures
            r.dry_run == Some(dry_run),
            r.service_account_key_json_string == self.service_account_key_json_string,
            r.service_account_key_json_path == self.service_account_key_json_path,
            r.token_cache_json_path == self.token_cache_json_path,
            r.fcm_request_timeout == self.fcm_request_timeout,
    {
        FcmClientBuilder { dry_run: Some(dry_run), ..self }
    }
}

/// The endpoint URL of the v1 send method for a project: the fixed path
/// template with the project id interpolated.
pub fn message_send_url(project_id: &str) -> (r: String)
    ensures
        r@ == "https://fcm.googleapis.com/v1/projects/"@ + project_id@ + "/messages:send"@,
{
    let mut url = String::from_str("https://fcm.googleapis.com/v1/projects/");
    url.append(project_id);
    url.append("/messages:send");
    url
}

/// Assembles the captured response from the wire parts of one completed
/// HTTP exchange: the status code, the parsed body, and the raw
/// `Retry-After` header when the response carried one.
///
/// A present header that parses as neither integer seconds nor an
/// RFC-2822 date fails the whole call, so that a real backoff
/// requirement is never silently dropped; the error keeps the header
/// value and the date parser's text.
pub fn response_from_parts(
    http_status_code: u16,
    response_json: JsonValue,
    retry_after_header: Option<&str>,
) -> (r: Result<FcmResponse, FcmClientError>)
    ensures
        match retry_after_header {
            None => r matches Ok(resp) && resp == (FcmResponse {
                http_status_code,
                response_json_object: response_json,
                retry_after: None,
            }),
            Some(h) => match retry_after_spec(h@) {
                Some(ra) => r matches Ok(resp) && resp == (FcmResponse {
                    http_status_code,
                    response_json_object: response_json,
                    retry_after: Some(ra),
                }),
                None => r matches Err(e) && (e matches
                    FcmClientError::RetryAfterHttpHeaderInvalid { error: _, value } && value@
                    == h@),
            },
        },
{
    let retry_after = match retry_after_header {
        None => None,
        Some(h) => match RetryAfter::from_str(h) {
            Ok(ra) => Some(ra),
            Err(error) => {
                return Err(
                    FcmClientError::RetryAfterHttpHeaderInvalid { error, value: h.to_owned() },
                );
            },
        },
    };
    Ok(FcmResponse::new(http_status_code, response_json, retry_after))
}

} // verus!
