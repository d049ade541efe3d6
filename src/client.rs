//! Assembling an authenticated client.
use vstd::prelude::*;
use vstd::string::StringExecFns;
use crate::error::HerokuruError;

verus! {

/// The API root used when no base URL is given.
pub const DEFAULT_BASE_URL: &'static str = "https://api.heroku.com/";

/// The versioned media type sent in the `Accept` header.
pub const ACCEPT_MEDIA_TYPE: &'static str = "application/vnd.heroku+json; version=3";

/// The `User-Agent` header value.
pub const USER_AGENT: &'static str = "Reqwest/herokuru version 0.1.0";

/// A character that may stand in a header value: every byte of its UTF-8
/// encoding is a tab, or at least a space and not DEL.
pub open spec fn header_char(c: char) -> bool {
    (c as u32 >= 32 && c as u32 != 127) || c as u32 == 9
}

/// Text that can be sent as a header value.
pub open spec fn header_text(s: Seq<char>) -> bool {
    forall|i: int| 0 <= i < s.len() ==> #[trigger] header_char(s[i])
}

/// Whether the URL parser accepts `s` as an absolute URL.
pub uninterp spec fn url_parses(s: Seq<char>) -> bool;

/// Relies on `http::HeaderValue::from_str` (re-exported by reqwest): it
/// accepts exactly the strings whose every byte is a tab, or at least 32 and
/// not 127.
#[verifier::external_body]
pub(crate) fn header_value_accepted(s: &str) -> (r: bool)
    ensures
        r == header_text(s@),
{
    reqwest::header::HeaderValue::from_str(s).is_ok()
}

/// Relies on `url::Url::parse` (re-exported by reqwest): whether it accepts
/// the string, which depends on the string alone.
#[verifier::external_body]
fn url_accepted(s: &str) -> (r: bool)
    ensures
        r == url_parses(s@),
{
    reqwest::Url::parse(s).is_ok()
}

/// The `Authorization` header value for a bearer token.
pub open spec fn bearer(token: Seq<char>) -> Seq<char> {
    "Bearer "@ + token
}

/// Settings from which a client is built.
#[derive(Debug, Clone, PartialEq, Eq)]
pub struct HerokuruBuilder {
    pub token: Option<String>,
    pub base_url: Option<String>,
}

/// A configured client: the values of the headers that every request
/// carries, and the root against which resource paths are resolved.
#[derive(Debug, Clone, PartialEq, Eq)]
pub struct Herokuru {
    pub base_url: String,
    pub authorization: String,
    pub accept: String,
    pub user_agent: String,
}

impl HerokuruBuilder {
    /// Settings with neither token nor base URL.
    pub fn new() -> (r: HerokuruBuilder)
        ensures
            r.token is None,
            r.base_url is None,
    {
        HerokuruBuilder { token: None, base_url: None }
    }

    /// Overrides the base URL, or goes back to the default with `None`.
    pub fn base_url(self, base_url: Option<String>) -> (r: HerokuruBuilder)
        ensures
            r.token == self.token,
            r.base_url == base_url,
    {
        HerokuruBuilder { token: self.token, base_url }
    }

    /// Sets the bearer token.
    pub fn token(self, token: String) -> (r: HerokuruBuilder)
        ensures
            r.token == Some(token),
            r.base_url == self.base_url,
    {
        HerokuruBuilder { token: Some(token), base_url: self.base_url }
    }

    /// The base URL that a client built from these settings uses.
    pub open spec fn effective_base_url(&self) -> Seq<char> {
        match self.base_url {
            Some(u) => u@,
            None => DEFAULT_BASE_URL@,
        }
    }

    /// Builds the client. Fails with `MissingToken` when no token or an empty
    /// one was set,
    /// with `InvalidToken` when `Bearer <token>` is no valid header value,
    /// and with `MalformedBaseUrl` when the base URL does not parse.
    pub fn build(self) -> (r: Result<Herokuru, HerokuruError>)
        ensures
            match self.token {
                None => r == Err::<Herokuru, HerokuruError>(HerokuruError::MissingToken),
                Some(t) => if t@.len() == 0 {
                    r == Err::<Herokuru, HerokuruError>(HerokuruError::MissingToken)
                } else if !header_text(bearer(t@)) {
                    r == Err::<Herokuru, HerokuruError>(HerokuruError::InvalidToken)
                } else if !url_parses(self.effective_base_url()) {
                    r == Err::<Herokuru, HerokuruError>(HerokuruError::MalformedBaseUrl)
                } else {
                    &&& r is Ok
                    &&& r->Ok_0.authorization@ == bearer(t@)
                    &&& r->Ok_0.base_url@ == self.effective_base_url()
                    &&& r->Ok_0.accept@ == ACCEPT_MEDIA_TYPE@
                    &&& r->Ok_0.user_agent@ == USER_AGENT@
                },
            },
    {
        let token = match self.token {
            None => return Err(HerokuruError::MissingToken),
            Some(t) => t,
        };
        if token.as_str().is_empty() {
            return Err(HerokuruError::MissingToken);
        }
        proof {
            reveal_strlit("Bearer ");
        }
        let mut authorization = String::from_str("Bearer ");
        authorization.append(token.as_str());
        if !header_value_accepted(authorization.as_str()) {
            return Err(HerokuruError::InvalidToken);
        }
        let base_url = match self.base_url {
            Some(u) => u,
            None => String::from_str(DEFAULT_BASE_URL),
        };
        if !url_accepted(base_url.as_str()) {
            return Err(HerokuruError::MalformedBaseUrl);
        }
        Ok(
            Herokuru {
                base_url,
                authorization,
                accept: String::from_str(ACCEPT_MEDIA_TYPE),
                user_agent: String::from_str(USER_AGENT),
            },
        )
    }
}

impl Herokuru {
    /// Settings from which a client is built.
    pub fn builder() -> (r: HerokuruBuilder)
        ensures
            r.token is None,
            r.base_url is None,
    {
        HerokuruBuilder::new()
    }
}

} // verus!
