//! Project secrets: their data and request paths.

use crate::paths::percent_encode;
use crate::paths::urlencoding_encode;
use crate::projects::project_path;
use crate::projects::project_path_spec;
use vstd::prelude::*;
use vstd::utf8::encode_utf8;

verus! {

#[derive(Debug, Clone)]
pub struct SecretSummary {
    pub name: String,
    pub created_at: Option<String>,
    pub updated_at: Option<String>,
}

/// The path that lists and sets a project's secrets.
pub fn secrets_path(reference: &str) -> (p: String)
    ensures
        p@ == project_path_spec(reference@, "secrets"@),
{
    project_path(reference, "secrets")
}

/// The path of one secret of a project, both parts percent-encoded.
pub fn secret_path(reference: &str, name: &str) -> (p: String)
    ensures
        p@ == project_path_spec(reference@, "secrets"@) + "/"@ + percent_encode(encode_utf8(name@)),
{
    let mut p = project_path(reference, "secrets");
    p.append("/");
    let enc = urlencoding_encode(name);
    p.append(enc.as_str());
    p
}

} // verus!
