//! Client configuration: the base URL, the API key and the User-Agent.

use crate::error::FloopError;
use crate::error::FloopErrorCode;
use vstd::prelude::*;

verus! {

/// Library version, kept in step with the latest release tag.
pub const VERSION: &'static str = "0.1.0-alpha.4";

/// The production API.
pub const DEFAULT_BASE_URL: &'static str = "https://www.floopfloop.com";

/// The per-request timeout of a client, in seconds, unless one is set.
pub const DEFAULT_TIMEOUT_SECS: u64 = 30;

/// `s` with every trailing `/` removed.
pub open spec fn strip_trailing_slashes(s: Seq<char>) -> Seq<char>
    decreases s.len(),
{
    if s.len() > 0 && s.last() == '/' {
        strip_trailing_slashes(s.drop_last())
    } else {
        s
    }
}

/// A base URL with its trailing slashes stripped.
pub fn normalize_base_url(url: &str) -> (res: String)
    ensures
        res@ == strip_trailing_slashes(url@),
{
    let n = url.unicode_len();
    let mut k = n;
    assert(url@.subrange(0, n as int) =~= url@);
    while k > 0 && url.get_char(k - 1) == '/'
        invariant
            k <= url@.len(),
            n == url@.len(),
            strip_trailing_slashes(url@) == strip_trailing_slashes(url@.subrange(0, k as int)),
        decreases k,
    {
        assert(url@.subrange(0, k as int).drop_last() =~= url@.subrange(0, k - 1));
        k = k - 1;
    }
    url.substring_char(0, k).to_owned()
}

/// A stripped URL ends in no slash, and stripping it again changes nothing.
pub proof fn law_stripped_url_is_stable(s: Seq<char>)
    ensures
        strip_trailing_slashes(s).len() == 0 || strip_trailing_slashes(s).last() != '/',
        strip_trailing_slashes(strip_trailing_slashes(s)) == strip_trailing_slashes(s),
        strip_trailing_slashes(s).len() <= s.len(),
        strip_trailing_slashes(s) =~= s.subrange(0, strip_trailing_slashes(s).len() as int),
    decreases s.len(),
{
    if s.len() > 0 && s.last() == '/' {
        let front = s.drop_last();
        law_stripped_url_is_stable(front);
        let n = strip_trailing_slashes(front).len() as int;
        assert(front.subrange(0, n) =~= s.subrange(0, n));
    } else {
        assert(s.subrange(0, s.len() as int) =~= s);
    }
}

/// The User-Agent: `floopfloop-rust-sdk/VERSION`, followed by ` SUFFIX`
/// when a suffix is given.
pub open spec fn user_agent_text(suffix: Option<Seq<char>>) -> Seq<char> {
    "floopfloop-rust-sdk/"@ + VERSION@ + match suffix {
        Some(s) => " "@ + s,
        None => Seq::empty(),
    }
}

/// What a built client holds besides its HTTP transport.
#[derive(Debug, Clone)]
pub struct ClientConfig {
    pub api_key: String,
    pub base_url: String,
    pub user_agent: String,
}

/// The User-Agent for an optional suffix.
fn user_agent_for(user_agent_suffix: &Option<String>) -> (ua: String)
    ensures
        ua@ == user_agent_text(
            match user_agent_suffix {
                Some(s) => Some(s@),
                None => None,
            },
        ),
{
    let mut user_agent = "floopfloop-rust-sdk/".to_owned();
    user_agent.append(VERSION);
    if let Some(s) = user_agent_suffix {
        user_agent.append(" ");
        user_agent.append(s.as_str());
    }
    user_agent
}

/// Checks the settings of a client and derives its User-Agent: an empty
/// API key is a `ValidationError` (`api_key is required`).
pub fn build_config(api_key: String, base_url: String, user_agent_suffix: Option<String>) -> (res:
    Result<ClientConfig, FloopError>)
    ensures
        res is Ok <==> api_key@.len() > 0,
        res matches Ok(c) ==> c.api_key == api_key && c.base_url == base_url && c.user_agent@
            == user_agent_text(
            match user_agent_suffix {
                Some(s) => Some(s@),
                None => None,
            },
        ),
        res matches Err(e) ==> e.code == FloopErrorCode::ValidationError && e.status == 0
            && e.message@ == "api_key is required"@ && e.request_id is None && e.retry_after is None,
{
    if api_key.as_str().is_empty() {
        return Err(
            FloopError::new(FloopErrorCode::ValidationError, 0, "api_key is required".to_owned()),
        );
    }
    let user_agent = user_agent_for(&user_agent_suffix);
    Ok(ClientConfig { api_key, base_url, user_agent })
}

/// The settings of a client made with `Client::new`: the production base
/// URL and the plain User-Agent. `Client::new` panics on an empty key, so
/// the key must not be empty.
pub fn default_config(api_key: String) -> (c: ClientConfig)
    requires
        api_key@.len() > 0,
    ensures
        c.api_key == api_key,
        c.base_url@ == DEFAULT_BASE_URL@,
        c.user_agent@ == user_agent_text(None),
{
    let user_agent = user_agent_for(&None);
    ClientConfig { api_key, base_url: DEFAULT_BASE_URL.to_owned(), user_agent }
}

} // verus!
