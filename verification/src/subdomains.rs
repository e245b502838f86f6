//! Subdomains: availability checks and suggestions.

use crate::paths::percent_encode;
use crate::paths::urlencoding_encode;
use vstd::prelude::*;
use vstd::utf8::encode_utf8;

verus! {

#[derive(Debug, Clone)]
pub struct SubdomainCheckResult {
    pub slug: String,
    pub available: bool,
    pub reason: Option<String>,
}

#[derive(Debug, Clone)]
pub struct SubdomainSuggestResult {
    pub slug: String,
}

/// The path that checks a slug: `/api/v1/subdomains/check?slug=SLUG`.
pub fn subdomain_check_path(slug: &str) -> (p: String)
    ensures
        p@ == "/api/v1/subdomains/check?slug="@ + percent_encode(encode_utf8(slug@)),
{
    let mut p = "/api/v1/subdomains/check?slug=".to_owned();
    let enc = urlencoding_encode(slug);
    p.append(enc.as_str());
    p
}

/// The path that suggests a slug for a prompt:
/// `/api/v1/subdomains/suggest?prompt=PROMPT`.
pub fn subdomain_suggest_path(prompt: &str) -> (p: String)
    ensures
        p@ == "/api/v1/subdomains/suggest?prompt="@ + percent_encode(encode_utf8(prompt@)),
{
    let mut p = "/api/v1/subdomains/suggest?prompt=".to_owned();
    let enc = urlencoding_encode(prompt);
    p.append(enc.as_str());
    p
}

} // verus!
