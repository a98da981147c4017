//! A client library for the Firebase Cloud Messaging HTTP v1 API.
//!
//! The library covers the send pipeline: the message data model and its
//! JSON wire encoding, the token-cache decision logic, and the
//! classification of an HTTP response into an error taxonomy with a
//! recommended remediation action.  Network and file I/O live outside the
//! library; callers hand in plain values and receive typed results.

pub mod android;
pub mod apns;
pub mod client;
pub mod json;
pub mod message;
pub mod notification;
pub mod numtext;
pub mod oauth;
pub mod response;
pub mod web;

pub use crate::client::FcmClientBuilder;
pub use crate::client::FcmClientError;
pub use crate::client::message_send_url;
pub use crate::client::response_from_parts;
pub use crate::json::JsonValue;
pub use crate::message::FcmOptions;
pub use crate::message::Message;
pub use crate::message::MessageWrapper;
pub use crate::message::Target;
pub use crate::message::is_validate_only_default;
pub use crate::message::read_target;
pub use crate::notification::Notification;
pub use crate::oauth::FcmOauthError;
pub use crate::oauth::OauthClientImpl;
pub use crate::oauth::TokenCache;
pub use crate::oauth::TokenDecision;
pub use crate::oauth::YupOauth2Error;
pub use crate::response::FcmResponse;
pub use crate::response::FcmResponseError;
pub use crate::response::RecomendedAction;
pub use crate::response::RecomendedWaitTime;
pub use crate::response::RetryAfter;
