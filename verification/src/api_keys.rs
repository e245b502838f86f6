//! API keys: their data, and resolving an id or a name to the key to revoke.

use crate::error::FloopError;
use crate::error::FloopErrorCode;
use crate::paths::percent_encode;
use crate::paths::urlencoding_encode;
use crate::text::str_equal;
use vstd::prelude::*;
use vstd::utf8::encode_utf8;

verus! {

#[derive(Debug, Clone)]
pub struct ApiKeySummary {
    pub id: String,
    pub name: String,
    pub key_prefix: String,
    /// Shape still evolving server-side: carried as raw JSON.
    pub scopes: Option<serde_json::Value>,
    pub last_used_at: Option<String>,
    pub created_at: String,
}

/// Returned once, on creation: `raw_key` is the only time the full secret
/// leaves the server.
#[derive(Debug, Clone)]
pub struct IssuedApiKey {
    pub id: String,
    pub raw_key: String,
    pub key_prefix: String,
}

#[derive(Debug, Clone)]
pub struct CreateApiKeyInput {
    pub name: String,
}

/// The path that lists and creates API keys.
pub const API_KEYS_PATH: &'static str = "/api/v1/api-keys";

/// A key is referred to by its id or by its name.
pub open spec fn key_matches(k: ApiKeySummary, id_or_name: Seq<char>) -> bool {
    k.id@ == id_or_name || k.name@ == id_or_name
}

/// The index of the first key, from index `i` on, that `id_or_name`
/// refers to.
pub open spec fn first_key_from(keys: Seq<ApiKeySummary>, id_or_name: Seq<char>, i: nat) -> Option<
    int,
>
    decreases keys.len() - i,
{
    if i >= keys.len() {
        None
    } else if key_matches(keys[i as int], id_or_name) {
        Some(i as int)
    } else {
        first_key_from(keys, id_or_name, i + 1)
    }
}

/// The id of the first key, in list order, whose id or name is
/// `id_or_name`; `NotFound` (status 404, `API key not found: REF`) when
/// none is.
pub fn resolve_api_key_id(keys: &Vec<ApiKeySummary>, id_or_name: &str) -> (res: Result<
    String,
    FloopError,
>)
    ensures
        match first_key_from(keys@, id_or_name@, 0) {
            Some(i) => res matches Ok(id) && id@ == keys@[i].id@,
            None => res matches Err(e) && e.code == FloopErrorCode::NotFound && e.status == 404
                && e.message@ == "API key not found: "@ + id_or_name@ && e.request_id is None
                && e.retry_after is None,
        },
{
    let mut i: usize = 0;
    while i < keys.len()
        invariant
            i <= keys@.len(),
            first_key_from(keys@, id_or_name@, 0) == first_key_from(keys@, id_or_name@, i as nat),
        decreases keys@.len() - i,
    {
        let k = &keys[i];
        if str_equal(k.id.as_str(), id_or_name) || str_equal(k.name.as_str(), id_or_name) {
            return Ok(k.id.clone());
        }
        i = i + 1;
    }
    let mut m = "API key not found: ".to_owned();
    m.append(id_or_name);
    Err(FloopError::new(FloopErrorCode::NotFound, 404, m))
}

/// A resolved key is one whose id or name is the reference, and no key
/// before it in the list is.
pub proof fn law_resolved_key_is_first_match(keys: Seq<ApiKeySummary>, id_or_name: Seq<char>, i: nat)
    ensures
        first_key_from(keys, id_or_name, i) matches Some(k) ==> i <= k < keys.len() && key_matches(
            keys[k],
            id_or_name,
        ) && forall|j: int| i <= j < k ==> !key_matches(#[trigger] keys[j], id_or_name),
        first_key_from(keys, id_or_name, i) is None ==> forall|j: int|
            i <= j < keys.len() ==> !key_matches(#[trigger] keys[j], id_or_name),
    decreases keys.len() - i,
{
    if i < keys.len() && !key_matches(keys[i as int], id_or_name) {
        law_resolved_key_is_first_match(keys, id_or_name, i + 1);
    }
}

/// The path of one API key: `/api/v1/api-keys/ID`, id percent-encoded.
pub fn api_key_path(id: &str) -> (p: String)
    ensures
        p@ == "/api/v1/api-keys/"@ + percent_encode(encode_utf8(id@)),
{
    let mut p = "/api/v1/api-keys/".to_owned();
    let enc = urlencoding_encode(id);
    p.append(enc.as_str());
    p
}

} // verus!
