//! Credential handling and the token-cache decision logic.
//!
//! The token providers talk to the OAuth issuer over the network, which
//! lives outside this library.  What stands here is the decision core:
//! extracting the project id from a parsed service-account key, deciding
//! from the cache whether a token exchange is needed, and the error
//! taxonomy of both provider backends.

use vstd::prelude::*;

verus! {

use vstd::string::StrSliceExecFns;
use crate::json::JsonData;
use crate::json::JsonValue;

/// The OAuth scope that identifies the messaging capability.
pub const FIREBASE_OAUTH_SCOPE: &'static str = "https://www.googleapis.com/auth/firebase.messaging";

/// Errors of the OAuth client that signs requests itself from the key
/// file.
#[derive(Debug)]
pub enum FcmOauthError {
    /// The token exchange failed; the text is the OAuth library's.
    Oauth(String),
    /// The service account key path is not UTF-8.
    ServiceAccountKeyPathIsNotUtf8,
    /// Reading the service account key failed; the text is the I/O
    /// error's.
    ServiceAccountKeyReadingFailed(String),
    /// The service account key is not valid JSON; the text is the
    /// parser's.
    ServiceAccountKeyDeserializationFailed(String),
    /// The service account key JSON does not contain a project id.
    ProjectIdIsMissing,
}

/// The shape of the delegated OAuth library's error, as far as the
/// logic reads it.
#[derive(Debug)]
pub enum OauthTokenError {
    /// The issuer's response carried no access token.
    MissingAccessToken,
    /// The issuer answered with an authorization error; the text is the
    /// issuer's.
    AuthError(String),
    /// Any other failure of the exchange; the text is the library's.
    Other(String),
}

/// Errors of the OAuth client that delegates the token flow.
#[derive(Debug)]
pub enum YupOauth2Error {
    /// Reading the service account key failed; the text is the I/O
    /// error's.
    ServiceAccountKeyReadingFailed(String),
    /// The token exchange failed.
    Oauth(OauthTokenError),
    /// The issuer's response completed but carried no usable token.
    AccessTokenIsMissing,
    /// Building the authenticator failed; the text is the I/O error's.
    AuthenticatorCreatingFailed(String),
    /// The service account key JSON does not contain a project id.
    ProjectIdIsMissing,
}

impl YupOauth2Error {
    /// Whether this error means the issuer answered but handed out no
    /// token.
    pub open spec fn access_token_missing_spec(self) -> bool {
        match self {
            YupOauth2Error::AccessTokenIsMissing => true,
            YupOauth2Error::Oauth(e) => match e {
                OauthTokenError::MissingAccessToken => true,
                OauthTokenError::AuthError(_) => true,
                OauthTokenError::Other(_) => false,
            },
            _ => false,
        }
    }

    /// If this is `true` then most likely the current service account
    /// key is invalid: the server requests completed, yet no usable
    /// access token came back.
    pub fn is_access_token_missing_even_if_server_requests_completed(&self) -> (r: bool)
        ensures
            r == self.access_token_missing_spec(),
    {
        match self {
            YupOauth2Error::AccessTokenIsMissing => true,
            YupOauth2Error::Oauth(e) => match e {
                OauthTokenError::MissingAccessToken => true,
                OauthTokenError::AuthError(_) => true,
                OauthTokenError::Other(_) => false,
            },
            _ => false,
        }
    }
}

/// The project id found in a parsed service-account key: the string
/// under the top-level `project_id` member.
pub open spec fn project_id_spec(d: JsonData) -> Option<Seq<char>> {
    match d.get("project_id"@) {
        Some(v) => v.as_str(),
        None => None,
    }
}

/// Extracts the project id from a parsed service-account key; a missing
/// or non-string `project_id` member is refused, and nothing else is.
pub fn get_project_id(key_json: &JsonValue) -> (r: Result<String, FcmOauthError>)
    ensures
        match r {
            Ok(p) => project_id_spec(key_json.deep()) == Some(p@),
            Err(e) => project_id_spec(key_json.deep()) is None && e is ProjectIdIsMissing,
        },
{
    match key_json.get("project_id") {
        Some(v) => match v.as_str() {
            Some(s) => Ok(s.clone()),
            None => Err(FcmOauthError::ProjectIdIsMissing),
        },
        None => Err(FcmOauthError::ProjectIdIsMissing),
    }
}

/// OAuth client state for the backend that signs requests itself: the
/// project id and the key file path, both fixed at construction.  The
/// caller reads and parses the key file; the token exchange itself is
/// network work outside this library.
pub struct OauthClientImpl {
    /// The project id from the service-account key.
    pub project_id: String,
    /// Path to the service-account key file, kept for the exchange.
    pub service_account_key_path: String,
}

impl OauthClientImpl {
    /// Builds the client state from the parsed service-account key and
    /// the path it was read from.
    pub fn new(key_json: &JsonValue, service_account_key_path: String) -> (r: Result<
        Self,
        FcmOauthError,
    >)
        ensures
            match r {
                Ok(c) => {
                    &&& project_id_spec(key_json.deep()) == Some(c.project_id@)
                    &&& c.service_account_key_path == service_account_key_path
                },
                Err(e) => project_id_spec(key_json.deep()) is None && e is ProjectIdIsMissing,
            },
    {
        let project_id = get_project_id(key_json)?;
        Ok(OauthClientImpl { project_id, service_account_key_path })
    }

    /// The project id of the credential.
    pub fn get_project_id(&self) -> (r: &str)
        ensures
            r@ == self.project_id@,
    {
        self.project_id.as_str()
    }
}

/// Whether `c` is an ASCII whitespace character.
pub open spec fn is_ascii_space(c: char) -> bool {
    c == ' ' || c == '\t' || c == '\n' || c == '\r' || c == '\x0b' || c == '\x0c'
}

/// The index of the first ASCII whitespace character of `s`, or the
/// length of `s` when it has none.
pub open spec fn first_space(s: Seq<char>) -> int
    decreases s,
{
    if s.len() == 0 {
        0
    } else if is_ascii_space(s[0]) {
        0
    } else {
        1 + first_space(s.drop_first())
    }
}

/// The second whitespace-separated field of `s`: the characters after
/// the first whitespace character, up to the next one or the end; or
/// nothing, when `s` holds no whitespace character at all.
pub open spec fn second_field(s: Seq<char>) -> Option<Seq<char>> {
    if first_space(s) == s.len() {
        None
    } else {
        let rest = s.skip(first_space(s) + 1);
        Some(rest.take(first_space(rest)))
    }
}

/// Where the first whitespace character stands: no character before it
/// is whitespace, and the character there (when within the text) is.
proof fn lemma_first_space(s: Seq<char>)
    ensures
        0 <= first_space(s) <= s.len(),
        forall|j: int| 0 <= j < first_space(s) ==> !is_ascii_space(#[trigger] s[j]),
        first_space(s) < s.len() ==> is_ascii_space(s[first_space(s)]),
    decreases s,
{
    if s.len() > 0 && !is_ascii_space(s[0]) {
        lemma_first_space(s.drop_first());
        assert forall|j: int| 0 <= j < first_space(s) implies !is_ascii_space(#[trigger] s[j]) by {
            if j > 0 {
                assert(s[j] == s.drop_first()[j - 1]);
            }
        }
    }
}

/// Finds the first ASCII whitespace character at or after `from`.
#[verifier::loop_isolation(false)]
fn find_space(s: &str, from: usize, len: usize) -> (r: usize)
    requires
        from <= len,
        len == s@.len(),
    ensures
        from + first_space(s@.skip(from as int)) == r,
        from <= r <= len,
{
    let mut i = from;
    while i < len
        invariant
            from <= i <= len,
            forall|j: int| from <= j < i ==> !is_ascii_space(#[trigger] s@[j]),
        decreases len - i,
    {
        let c = s.get_char(i);
        let cu = c as u32;
        if cu == 0x20 || cu == 0x09 || cu == 0x0a || cu == 0x0d || cu == 0x0b || cu == 0x0c {
            proof {
                assert(is_ascii_space(s@[i as int]));
                lemma_first_space(s@.skip(from as int));
                lemma_first_space_bound(s@.skip(from as int), i - from as int);
            }
            return i;
        }
        proof {
            assert(c != ' ' && c != '\t' && c != '\n' && c != '\r' && c != '\x0b' && c != '\x0c');
            assert(!is_ascii_space(s@[i as int]));
        }
        i += 1;
    }
    proof {
        lemma_first_space(s@.skip(from as int));
        if first_space(s@.skip(from as int)) < len - from {
            assert(is_ascii_space(s@[from + first_space(s@.skip(from as int))]));
        }
    }
    len
}

/// A whitespace character at position `at`, with none before it, pins
/// `first_space` to `at`.
proof fn lemma_first_space_bound(s: Seq<char>, at: int)
    requires
        0 <= at < s.len(),
        is_ascii_space(s[at]),
        forall|j: int| 0 <= j < at ==> !is_ascii_space(#[trigger] s[j]),
    ensures
        first_space(s) == at,
    decreases at,
{
    if at > 0 {
        lemma_first_space_bound(s.drop_first(), at - 1);
    }
}

/// The bearer value of a scheme-prefixed access token, such as the text
/// after `Bearer` and its separating space: the second
/// whitespace-separated field.  Nothing comes back when the text holds
/// no whitespace at all.
pub fn access_token_value(access_token: &str) -> (r: Option<String>)
    ensures
        match r {
            Some(t) => second_field(access_token@) == Some(t@),
            None => second_field(access_token@) is None,
        },
{
    let len = access_token.unicode_len();
    let start = find_space(access_token, 0, len);
    proof {
        assert(access_token@.skip(0) =~= access_token@);
    }
    if start == len {
        return None;
    }
    let from = start + 1;
    let to = find_space(access_token, from, len);
    proof {
        lemma_first_space(access_token@.skip(from as int));
    }
    let field = access_token.substring_char(from, to);
    proof {
        let rest = access_token@.skip(from as int);
        assert(rest.take(first_space(rest)) =~= access_token@.subrange(
            from as int,
            from + first_space(rest),
        ));
    }
    Some(field.to_owned())
}

/// One cached bearer token, with its expiry as whole seconds since the
/// Unix epoch.
pub struct CachedToken {
    /// The bearer value presented in the `Authorization` header.
    pub bearer: String,
    /// When the token expires.
    pub expires_at: i64,
}

/// What `get_token` decides for one call.
pub enum TokenDecision {
    /// A cached token is still valid: present this value, with no round
    /// trip to the issuer.
    UseCached(String),
    /// The cache is cold or expired: perform one token exchange, store
    /// the result, and use it.
    StartExchange,
}

/// Margin in seconds by which a cached token is treated as expired
/// before its stated expiry, so that a token never dies mid-request.
pub const TOKEN_EXPIRY_MARGIN_SECONDS: i64 = 60;

/// The token cache of one provider instance: the decision core of
/// `get_token`.
///
/// The provider holds this cache behind its own lock; callers that find
/// a valid token share it, and callers that find the cache cold are to
/// coalesce onto a single exchange, storing its result here.  The
/// network exchange and the locking are the shell's work, outside this
/// library.
pub struct TokenCache {
    /// The cached token, when one has been stored.
    pub token: Option<CachedToken>,
}

impl TokenCache {
    /// Whether the cache holds a token that is still valid at `now`,
    /// with the safety margin applied.
    pub open spec fn has_valid(self, now: i64) -> bool {
        match self.token {
            Some(t) => t.expires_at - TOKEN_EXPIRY_MARGIN_SECONDS > now,
            None => false,
        }
    }

    /// A cold cache.
    pub fn new() -> (r: Self)
        ensures
            r.token is None,
    {
        TokenCache { token: None }
    }

    /// Decides one `get_token` call at time `now`: the cached token is
    /// reused exactly when it is present and not within the safety
    /// margin of its expiry; otherwise one exchange is to be performed.
    pub fn decide(&self, now: i64) -> (r: TokenDecision)
        ensures
            self.has_valid(now) ==> (r matches TokenDecision::UseCached(b) && b@
                == self.token->Some_0.bearer@),
            !self.has_valid(now) ==> r is StartExchange,
    {
        match &self.token {
            Some(t) => {
                if t.expires_at > i64::MIN + TOKEN_EXPIRY_MARGIN_SECONDS && t.expires_at
                    - TOKEN_EXPIRY_MARGIN_SECONDS > now {
                    TokenDecision::UseCached(t.bearer.clone())
                } else {
                    TokenDecision::StartExchange
                }
            },
            None => TokenDecision::StartExchange,
        }
    }

    /// Stores the result of a completed exchange.
    pub fn store(&mut self, bearer: String, expires_at: i64)
        ensures
            final(self).token == Some(CachedToken { bearer, expires_at }),
    {
        self.token = Some(CachedToken { bearer, expires_at });
    }
}

} // verus!
