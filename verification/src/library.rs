//! The public project library: listing with filters, and cloning.

use crate::error::FloopError;
use crate::error::FloopErrorCode;
use crate::json::json_get;
use crate::json::json_member;
use crate::paths::append_query;
use crate::paths::percent_encode;
use crate::paths::urlencoding_encode;
use crate::paths::with_query;
use crate::text::decimal;
use crate::text::u64_text;
use vstd::prelude::*;
use vstd::utf8::encode_utf8;

verus! {

#[derive(Debug, Clone)]
pub struct LibraryProject {
    pub id: String,
    pub name: String,
    pub description: Option<String>,
    pub subdomain: Option<String>,
    pub bot_type: Option<String>,
    pub clone_count: i64,
    pub created_at: String,
}

#[derive(Debug, Default, Clone)]
pub struct LibraryListOptions {
    pub bot_type: Option<String>,
    pub search: Option<String>,
    /// "popular" or "newest"; any other string is forwarded verbatim.
    pub sort: Option<String>,
    pub page: Option<u32>,
    pub limit: Option<u32>,
}

#[derive(Debug, Clone)]
pub struct ClonedProject {
    pub id: String,
    pub name: String,
    pub subdomain: Option<String>,
    pub status: String,
}

#[derive(Debug, Clone)]
pub struct CloneLibraryProjectInput {
    pub subdomain: String,
}

/// `KEY=VALUE` when a value is given, else nothing.
pub open spec fn opt_param(key: Seq<char>, value: Option<Seq<char>>) -> Seq<Seq<char>> {
    match value {
        Some(v) => seq![key + "="@ + v],
        None => Seq::empty(),
    }
}

/// An optional text, percent-encoded.
pub open spec fn encoded(o: Option<String>) -> Option<Seq<char>> {
    match o {
        Some(s) => Some(percent_encode(encode_utf8(s@))),
        None => None,
    }
}

/// An optional number, in decimal.
pub open spec fn in_decimal(o: Option<u32>) -> Option<Seq<char>> {
    match o {
        Some(n) => Some(decimal(n as nat)),
        None => None,
    }
}

/// The query parameters of a library listing, in order.
pub open spec fn library_params(o: LibraryListOptions) -> Seq<Seq<char>> {
    opt_param("botType"@, encoded(o.bot_type)) + opt_param("search"@, encoded(o.search))
        + opt_param("sort"@, encoded(o.sort)) + opt_param("page"@, in_decimal(o.page))
        + opt_param("limit"@, in_decimal(o.limit))
}

fn push_param(params: &mut Vec<String>, key: &str, value: Option<String>)
    ensures
        final(params)@.map_values(|p: String| p@) == old(params)@.map_values(|p: String| p@)
            + opt_param(
            key@,
            match value {
                Some(v) => Some(v@),
                None => None,
            },
        ),
{
    let ghost before = params@.map_values(|p: String| p@);
    match value {
        Some(v) => {
            let mut p = key.to_owned();
            p.append("=");
            p.append(v.as_str());
            params.push(p);
            assert(params@.map_values(|p: String| p@) =~= before + seq![key@ + "="@ + v@]);
        },
        None => {
            assert(params@.map_values(|p: String| p@) =~= before + Seq::<Seq<char>>::empty());
        },
    }
}

fn encode_opt(o: &Option<String>) -> (r: Option<String>)
    ensures
        match r {
            Some(s) => encoded(*o) == Some(s@),
            None => encoded(*o) is None,
        },
{
    match o {
        Some(s) => Some(urlencoding_encode(s.as_str())),
        None => None,
    }
}

fn decimal_opt(o: Option<u32>) -> (r: Option<String>)
    ensures
        match r {
            Some(s) => in_decimal(o) == Some(s@),
            None => in_decimal(o) is None,
        },
{
    match o {
        Some(n) => Some(u64_text(n as u64)),
        None => None,
    }
}

/// The path that lists the library: `/api/v1/library`, with the given
/// filters as `botType`, `search`, `sort`, `page` and `limit` parameters.
pub fn library_list_path(opts: &LibraryListOptions) -> (p: String)
    ensures
        p@ == with_query("/api/v1/library"@, library_params(*opts)),
{
    let mut params: Vec<String> = Vec::new();
    push_param(&mut params, "botType", encode_opt(&opts.bot_type));
    push_param(&mut params, "search", encode_opt(&opts.search));
    push_param(&mut params, "sort", encode_opt(&opts.sort));
    push_param(&mut params, "page", decimal_opt(opts.page));
    push_param(&mut params, "limit", decimal_opt(opts.limit));
    assert(params@.map_values(|p: String| p@) =~= library_params(*opts));
    append_query("/api/v1/library".to_owned(), &params)
}

/// The path that clones a library project, the id percent-encoded.
pub fn library_clone_path(project_id: &str) -> (p: String)
    ensures
        p@ == "/api/v1/library/"@ + percent_encode(encode_utf8(project_id@)) + "/clone"@,
{
    let mut p = "/api/v1/library/".to_owned();
    let enc = urlencoding_encode(project_id);
    p.append(enc.as_str());
    p.append("/clone");
    p
}

/// The `items` member of a library listing body, for the
/// `{"items": [...]}` shape; `None` when the body is not an object with
/// that member.
pub fn library_items(raw: &serde_json::Value) -> (res: Option<serde_json::Value>)
    ensures
        res == json_member(*raw, "items"@),
{
    match json_get(raw, "items") {
        Some(items) => Some(items.clone()),
        None => None,
    }
}

/// The listing, from a body that decoded as a bare array (`bare`) or whose
/// `items` member did (`items`); the bare array wins. `Unknown`
/// (`library list: unrecognised response shape`) when neither did.
pub fn pick_library_listing(
    bare: Option<Vec<LibraryProject>>,
    items: Option<Vec<LibraryProject>>,
) -> (res: Result<Vec<LibraryProject>, FloopError>)
    ensures
        bare matches Some(b) ==> res == Ok::<Vec<LibraryProject>, FloopError>(b),
        bare is None ==> (items matches Some(i) ==> res == Ok::<Vec<LibraryProject>, FloopError>(i)),
        bare is None && items is None ==> (res matches Err(e) && e.code == FloopErrorCode::Unknown
            && e.status == 0 && e.message@ == "library list: unrecognised response shape"@
            && e.request_id is None && e.retry_after is None),
{
    match bare {
        Some(b) => Ok(b),
        None => match items {
            Some(i) => Ok(i),
            None => Err(
                FloopError::new(
                    FloopErrorCode::Unknown,
                    0,
                    "library list: unrecognised response shape".to_owned(),
                ),
            ),
        },
    }
}

} // verus!
