//! Projects: their data, request paths, lookup, refine outcomes and the
//! decisions that drive status streaming.

use crate::error::FloopError;
use crate::error::FloopErrorCode;
use crate::json::json_as_bool;
use crate::json::json_as_i64;
use crate::json::json_as_str;
use crate::json::json_get;
use crate::json::json_parse;
use crate::json::member_bool;
use crate::json::member_int;
use crate::json::member_text;
use crate::json::parse_json;
use crate::paths::percent_encode;
use crate::paths::urlencoding_encode;
use crate::text::decimal;
use crate::text::i64_text;
use crate::text::non_empty_or;
use crate::text::non_empty_or_spec;
use crate::text::signed_decimal;
use crate::text::str_equal;
use crate::text::u64_text;
use crate::time::duration_debug;
use crate::time::duration_debug_text;
use crate::time::duration_nanos;
use crate::time::nanos_of;
use crate::transport::decode_failure;
use std::time::Duration;
use vstd::prelude::*;
use vstd::utf8::encode_utf8;

verus! {

#[derive(Debug, Clone)]
pub struct Project {
    pub id: String,
    pub name: String,
    pub subdomain: Option<String>,
    pub status: String,
    pub bot_type: Option<String>,
    pub url: Option<String>,
    pub amplify_app_url: Option<String>,
    pub is_public: bool,
    pub is_auth_protected: bool,
    pub team_id: Option<String>,
    pub created_at: String,
    pub updated_at: String,
    pub thumbnail_url: Option<String>,
}

#[derive(Debug, Default, Clone)]
pub struct CreateProjectInput {
    pub prompt: String,
    pub name: Option<String>,
    pub subdomain: Option<String>,
    pub bot_type: Option<String>,
    pub is_auth_protected: Option<bool>,
    pub team_id: Option<String>,
}

#[derive(Debug)]
pub struct Deployment {
    pub id: String,
    pub status: String,
    pub version: i64,
}

#[derive(Debug)]
pub struct CreatedProject {
    pub project: Project,
    pub deployment: Deployment,
}

#[derive(Debug, Default, Clone)]
pub struct ListProjectsOptions {
    pub team_id: Option<String>,
}

#[derive(Debug, Default, Clone)]
pub struct RefineInput {
    pub message: String,
    pub attachments: Option<Vec<RefineAttachment>>,
    pub code_edit_only: Option<bool>,
}

#[derive(Debug, Clone)]
pub struct RefineAttachment {
    pub key: String,
    pub file_name: String,
    pub file_type: String,
    pub file_size: i64,
}

/// The outcome of `Projects::refine`: exactly one field is `Some`.
#[derive(Debug, Default, Clone)]
pub struct RefineResult {
    pub queued: Option<RefineQueued>,
    pub saved_only: Option<RefineSavedOnly>,
    pub processing: Option<RefineProcessing>,
}

#[derive(Debug, Clone)]
pub struct RefineQueued {
    pub message_id: String,
}

#[derive(Debug, Clone)]
pub struct RefineSavedOnly;

#[derive(Debug, Clone)]
pub struct RefineProcessing {
    pub deployment_id: String,
    pub queue_priority: i64,
}

#[derive(Debug, Clone)]
pub struct ConversationMessage {
    pub id: String,
    pub project_id: String,
    pub role: String,
    pub content: String,
    pub metadata: Option<serde_json::Value>,
    pub status: String,
    pub position: Option<i64>,
    pub created_at: String,
}

#[derive(Debug, Clone)]
pub struct ConversationsResult {
    pub messages: Vec<ConversationMessage>,
    pub queued: Vec<ConversationMessage>,
    pub latest_version: i64,
}

#[derive(Debug, Default, Clone)]
pub struct ConversationsOptions {
    /// 0 means "server default".
    pub limit: u32,
}

/// Configures `Projects::stream` and `Projects::wait_for_live`.
#[derive(Debug, Clone, Copy)]
pub struct StreamOptions {
    pub interval: Duration,
    pub max_wait: Duration,
}

impl Default for StreamOptions {
    /// Polls every 2 s and waits at most 600 s.
    fn default() -> (o: StreamOptions)
        ensures
            duration_nanos(o.interval) == 2_000_000_000,
            duration_nanos(o.max_wait) == 600_000_000_000,
    {
        StreamOptions { interval: Duration::from_secs(2), max_wait: Duration::from_secs(600) }
    }
}

/// The name the Go SDK uses for the same options.
pub type WaitForLiveOptions = StreamOptions;

/// The path that lists projects: `/api/v1/projects`, with
/// `?teamId=TEAM` when a team is given.
pub open spec fn projects_list_path_spec(team_id: Option<Seq<char>>) -> Seq<char> {
    match team_id {
        Some(t) => "/api/v1/projects?teamId="@ + percent_encode(encode_utf8(t)),
        None => "/api/v1/projects"@,
    }
}

/// The path that lists projects.
pub fn projects_list_path(opts: &ListProjectsOptions) -> (p: String)
    ensures
        p@ == projects_list_path_spec(
            match opts.team_id {
                Some(t) => Some(t@),
                None => None,
            },
        ),
{
    match &opts.team_id {
        Some(t) => {
            let mut p = "/api/v1/projects?teamId=".to_owned();
            let enc = urlencoding_encode(t.as_str());
            p.append(enc.as_str());
            p
        },
        None => "/api/v1/projects".to_owned(),
    }
}

/// `/api/v1/projects/REF/ACTION`, with the reference percent-encoded.
pub open spec fn project_path_spec(reference: Seq<char>, action: Seq<char>) -> Seq<char> {
    "/api/v1/projects/"@ + percent_encode(encode_utf8(reference)) + "/"@ + action
}

/// The path of an action on one project (`status`, `cancel`, `reactivate`,
/// `refine`, `conversations`, `secrets`).
pub fn project_path(reference: &str, action: &str) -> (p: String)
    ensures
        p@ == project_path_spec(reference@, action@),
{
    let mut p = "/api/v1/projects/".to_owned();
    let enc = urlencoding_encode(reference);
    p.append(enc.as_str());
    p.append("/");
    p.append(action);
    p
}

/// The path of a project's conversations, with `?limit=N` when the limit
/// is positive.
pub fn conversations_path(reference: &str, opts: &ConversationsOptions) -> (p: String)
    ensures
        p@ == project_path_spec(reference@, "conversations"@) + if opts.limit > 0 {
            "?limit="@ + decimal(opts.limit as nat)
        } else {
            Seq::empty()
        },
{
    let mut p = project_path(reference, "conversations");
    if opts.limit > 0 {
        p.append("?limit=");
        let digits = u64_text(opts.limit as u64);
        p.append(digits.as_str());
    }
    p
}

/// A project is referred to by its id or by its subdomain.
pub open spec fn project_matches(p: Project, reference: Seq<char>) -> bool {
    p.id@ == reference || (p.subdomain matches Some(s) && s@ == reference)
}

fn matches_reference(p: &Project, reference: &str) -> (r: bool)
    ensures
        r == project_matches(*p, reference@),
{
    if str_equal(p.id.as_str(), reference) {
        return true;
    }
    match &p.subdomain {
        Some(s) => str_equal(s.as_str(), reference),
        None => false,
    }
}

/// The index of the first project, from index `i` on, that `reference`
/// refers to.
pub open spec fn first_match_from(all: Seq<Project>, reference: Seq<char>, i: nat) -> Option<int>
    decreases all.len() - i,
{
    if i >= all.len() {
        None
    } else if project_matches(all[i as int], reference) {
        Some(i as int)
    } else {
        first_match_from(all, reference, i + 1)
    }
}

/// The first project, in list order, whose id or subdomain is `reference`;
/// `NotFound` (status 404, `project not found: REF`) when none is.
pub fn find_project(projects: Vec<Project>, reference: &str) -> (res: Result<Project, FloopError>)
    ensures
        match first_match_from(projects@, reference@, 0) {
            Some(i) => res matches Ok(p) && p == projects@[i],
            None => res matches Err(e) && e.code == FloopErrorCode::NotFound && e.status == 404
                && e.message@ == "project not found: "@ + reference@ && e.request_id is None
                && e.retry_after is None,
        },
{
    let ghost original = projects@;
    let mut all = projects;
    let mut i: usize = 0;
    while i < all.len()
        invariant
            original == projects@,
            all@ == original,
            i <= all@.len(),
            first_match_from(original, reference@, 0) == first_match_from(
                original,
                reference@,
                i as nat,
            ),
        decreases all@.len() - i,
    {
        if matches_reference(&all[i], reference) {
            let p = all.remove(i);
            return Ok(p);
        }
        i = i + 1;
    }
    let mut m = "project not found: ".to_owned();
    m.append(reference);
    Err(FloopError::new(FloopErrorCode::NotFound, 404, m))
}

/// A found project is one that the reference refers to, and no project
/// before it in the list is.
pub proof fn law_found_project_is_first_match(all: Seq<Project>, reference: Seq<char>, i: nat)
    ensures
        first_match_from(all, reference, i) matches Some(k) ==> i <= k < all.len()
            && project_matches(all[k], reference) && forall|j: int|
            i <= j < k ==> !project_matches(#[trigger] all[j], reference),
        first_match_from(all, reference, i) is None ==> forall|j: int|
            i <= j < all.len() ==> !project_matches(#[trigger] all[j], reference),
    decreases all.len() - i,
{
    if i < all.len() && !project_matches(all[i as int], reference) {
        law_found_project_is_first_match(all, reference, i + 1);
    }
}

/// Looking a project up finds it by its id or by its subdomain, whichever
/// the reference names: the project found has that id or that subdomain,
/// no project before it in the list has either, and when none is found no
/// project in the list has that id or that subdomain. In particular a
/// project is always found by its own id, whether it has a subdomain or
/// not.
pub proof fn law_project_found_by_id_or_subdomain(all: Seq<Project>, reference: Seq<char>)
    ensures
        first_match_from(all, reference, 0) matches Some(k) ==> 0 <= k < all.len() && (all[k].id@
            == reference || (all[k].subdomain matches Some(s) && s@ == reference)) && forall|j: int|
            0 <= j < k ==> (#[trigger] all[j]).id@ != reference && !(all[j].subdomain matches Some(
            s) && s@ == reference),
        first_match_from(all, reference, 0) is None ==> forall|j: int|
            0 <= j < all.len() ==> (#[trigger] all[j]).id@ != reference && !(
            all[j].subdomain matches Some(s) && s@ == reference),
        forall|j: int|
            0 <= j < all.len() && (#[trigger] all[j]).id@ == reference ==> (first_match_from(
                all,
                reference,
                0,
            ) matches Some(k) && k <= j),
{
    law_found_project_is_first_match(all, reference, 0);
}

/// What a refine response says, read from its JSON body.
pub enum RefineReading {
    Queued(Seq<char>),
    SavedOnly,
    Processing(Seq<char>, i64),
}

/// The reading of a refine response: `queued: true` (with its `messageId`,
/// empty when absent), `queued: false` (saved only), or `processing: true`
/// (with `deploymentId` and `queuePriority`, defaulting to empty and 0);
/// `None` for any other shape.
pub open spec fn refine_reading(v: serde_json::Value) -> Option<RefineReading> {
    match member_bool(v, "queued"@) {
        Some(true) => Some(
            RefineReading::Queued(
                match member_text(v, "messageId"@) {
                    Some(m) => m,
                    None => Seq::empty(),
                },
            ),
        ),
        Some(false) => Some(RefineReading::SavedOnly),
        None => match member_bool(v, "processing"@) {
            Some(true) => Some(
                RefineReading::Processing(
                    match member_text(v, "deploymentId"@) {
                        Some(d) => d,
                        None => Seq::empty(),
                    },
                    match member_int(v, "queuePriority"@) {
                        Some(q) => q,
                        None => 0,
                    },
                ),
            ),
            _ => None,
        },
    }
}

/// `r` reports exactly `reading`, with the other two fields `None`.
pub open spec fn refine_result_is(r: RefineResult, reading: RefineReading) -> bool {
    match reading {
        RefineReading::Queued(m) => r.saved_only is None && r.processing is None
            && (r.queued matches Some(q) && q.message_id@ == m),
        RefineReading::SavedOnly => r.queued is None && r.processing is None && r.saved_only is Some,
        RefineReading::Processing(d, p) => r.queued is None && r.saved_only is None
            && (r.processing matches Some(x) && x.deployment_id@ == d && x.queue_priority == p),
    }
}

/// Exactly one of the three outcomes is present.
pub open spec fn exactly_one(r: RefineResult) -> bool {
    (if r.queued is Some {
        1int
    } else {
        0
    }) + (if r.saved_only is Some {
        1int
    } else {
        0
    }) + (if r.processing is Some {
        1int
    } else {
        0
    }) == 1
}

fn text_member_or_empty(v: &serde_json::Value, key: &str) -> (s: String)
    ensures
        s@ == match member_text(*v, key@) {
            Some(t) => t,
            None => Seq::empty(),
        },
{
    match json_get(v, key) {
        Some(m) => match json_as_str(m) {
            Some(t) => t,
            None => String::new(),
        },
        None => String::new(),
    }
}

fn bool_member(v: &serde_json::Value, key: &str) -> (b: Option<bool>)
    ensures
        b == member_bool(*v, key@),
{
    match json_get(v, key) {
        Some(m) => json_as_bool(m),
        None => None,
    }
}

/// Classifies a refine response body: queued, saved only, or processing;
/// `Unknown` (`refine: unrecognised response shape`) for anything else.
pub fn classify_refine(raw: &serde_json::Value) -> (res: Result<RefineResult, FloopError>)
    ensures
        match refine_reading(*raw) {
            Some(reading) => res matches Ok(r) && refine_result_is(r, reading),
            None => res matches Err(e) && e.code == FloopErrorCode::Unknown && e.status == 0
                && e.message@ == "refine: unrecognised response shape"@ && e.request_id is None
                && e.retry_after is None,
        },
        res matches Ok(r) ==> exactly_one(r),
{
    if let Some(q) = bool_member(raw, "queued") {
        if q {
            let message_id = text_member_or_empty(raw, "messageId");
            return Ok(
                RefineResult {
                    queued: Some(RefineQueued { message_id }),
                    saved_only: None,
                    processing: None,
                },
            );
        } else {
            return Ok(
                RefineResult { queued: None, saved_only: Some(RefineSavedOnly), processing: None },
            );
        }
    }
    if let Some(p) = bool_member(raw, "processing") {
        if p {
            let deployment_id = text_member_or_empty(raw, "deploymentId");
            let queue_priority = match json_get(raw, "queuePriority") {
                Some(m) => match json_as_i64(m) {
                    Some(n) => n,
                    None => 0,
                },
                None => 0,
            };
            return Ok(
                RefineResult {
                    queued: None,
                    saved_only: None,
                    processing: Some(RefineProcessing { deployment_id, queue_priority }),
                },
            );
        }
    }
    Err(
        FloopError::new(
            FloopErrorCode::Unknown,
            0,
            "refine: unrecognised response shape".to_owned(),
        ),
    )
}

/// Interprets the (unwrapped) body of a refine response: a body that is
/// not JSON is a decode failure, anything else is classified.
pub fn interpret_refine(body: &str) -> (res: Result<RefineResult, FloopError>)
    ensures
        match json_parse(body@) {
            Ok(v) => match refine_reading(v) {
                Some(reading) => res matches Ok(r) && refine_result_is(r, reading),
                None => res matches Err(e) && e.code == FloopErrorCode::Unknown && e.status == 0
                    && e.message@ == "refine: unrecognised response shape"@ && e.request_id is None
                    && e.retry_after is None,
            },
            Err(detail) => res matches Err(e) && e.code == FloopErrorCode::Unknown && e.status == 0
                && e.message@ == "failed to decode response: "@ + detail && e.request_id is None
                && e.retry_after is None,
        },
        res matches Ok(r) ==> exactly_one(r),
{
    match parse_json(body) {
        Ok(v) => classify_refine(&v),
        Err(detail) => Err(decode_failure(detail.as_str())),
    }
}

/// The key on which status snapshots are de-duplicated:
/// `STATUS|STEP|PROGRESS|QUEUE`, where `PROGRESS` is the rendered progress
/// (empty when absent) and `QUEUE` the queue position (empty when absent).
pub open spec fn event_key(
    status: Seq<char>,
    step: i64,
    progress_text: Seq<char>,
    queue_position: Option<i64>,
) -> Seq<char> {
    status + "|"@ + signed_decimal(step as int) + "|"@ + progress_text + "|"@ + match queue_position {
        Some(q) => signed_decimal(q as int),
        None => Seq::empty(),
    }
}

/// Builds the de-duplication key of a status snapshot.
pub fn stream_event_key(
    status: &str,
    step: i64,
    progress_text: &str,
    queue_position: Option<i64>,
) -> (k: String)
    ensures
        k@ == event_key(status@, step, progress_text@, queue_position),
{
    let mut k = status.to_owned();
    k.append("|");
    let step_text = i64_text(step);
    k.append(step_text.as_str());
    k.append("|");
    k.append(progress_text);
    k.append("|");
    if let Some(q) = queue_position {
        let q_text = i64_text(q);
        k.append(q_text.as_str());
    }
    k
}

/// Every snapshot key is non-empty, so a stream that has reported nothing
/// yet reports its first snapshot.
pub proof fn law_first_snapshot_is_reported(
    status: Seq<char>,
    step: i64,
    progress_text: Seq<char>,
    queue_position: Option<i64>,
)
    ensures
        event_key(status, step, progress_text, queue_position) != Seq::<char>::empty(),
{
    let k = event_key(status, step, progress_text, queue_position);
    assert(k.len() > 0);
}

/// `e` is the error of a stream that ran out of time: `Timeout` with
/// `stream: project REF did not reach a terminal state within MAX_WAIT`.
pub open spec fn timeout_error(reference: Seq<char>, max_wait: Duration, e: FloopError) -> bool {
    &&& e.code == FloopErrorCode::Timeout
    &&& e.status == 0
    &&& e.message@ == "stream: project "@ + reference + " did not reach a terminal state within "@
        + duration_debug_text(max_wait)
    &&& e.request_id is None
    &&& e.retry_after is None
}

/// Before each poll: the stream has timed out once no time is left before
/// its deadline.
pub fn stream_deadline_check(reference: &str, max_wait: &Duration, remaining: &Duration) -> (res:
    Result<(), FloopError>)
    ensures
        res is Ok <==> duration_nanos(*remaining) > 0,
        res matches Err(e) ==> timeout_error(reference@, *max_wait, e),
{
    if nanos_of(remaining) > 0 {
        return Ok(());
    }
    let mut m = "stream: project ".to_owned();
    m.append(reference);
    m.append(" did not reach a terminal state within ");
    let wait = duration_debug(max_wait);
    m.append(wait.as_str());
    Err(FloopError::new(FloopErrorCode::Timeout, 0, m))
}

/// Whether a status ends a stream.
pub open spec fn is_terminal(status: Seq<char>) -> bool {
    status == "live"@ || status == "archived"@ || status == "failed"@ || status == "cancelled"@
}

/// What a terminal status ends a stream with: success for `live` and
/// `archived`, `BuildFailed` for `failed` and `BuildCancelled` for
/// `cancelled`, each error carrying the snapshot's message or a default
/// when it is empty.
pub open spec fn terminal_result(status: Seq<char>, message: Seq<char>, r: Result<(), FloopError>) -> bool {
    if status == "live"@ || status == "archived"@ {
        r is Ok
    } else if status == "failed"@ {
        r matches Err(e) && e.code == FloopErrorCode::BuildFailed && e.status == 0 && e.message@
            == non_empty_or_spec(message, "build failed"@) && e.request_id is None
            && e.retry_after is None
    } else if status == "cancelled"@ {
        r matches Err(e) && e.code == FloopErrorCode::BuildCancelled && e.status == 0 && e.message@
            == non_empty_or_spec(message, "build cancelled"@) && e.request_id is None
            && e.retry_after is None
    } else {
        false
    }
}

/// After each snapshot: a terminal status ends the stream with its result;
/// any other status continues it (`None`).
pub fn stream_outcome(status: &str, message: &str) -> (res: Option<Result<(), FloopError>>)
    ensures
        res is Some <==> is_terminal(status@),
        res matches Some(r) ==> terminal_result(status@, message@, r),
{
    proof {
        reveal_strlit("live");
        reveal_strlit("archived");
        reveal_strlit("failed");
        reveal_strlit("cancelled");
        assert("live"@.len() == 4 && "archived"@.len() == 8);
        assert("failed"@.len() == 6 && "cancelled"@.len() == 9);
    }
    if str_equal(status, "live") || str_equal(status, "archived") {
        Some(Ok(()))
    } else if str_equal(status, "failed") {
        Some(
            Err(
                FloopError::new(
                    FloopErrorCode::BuildFailed,
                    0,
                    non_empty_or(message, "build failed"),
                ),
            ),
        )
    } else if str_equal(status, "cancelled") {
        Some(
            Err(
                FloopError::new(
                    FloopErrorCode::BuildCancelled,
                    0,
                    non_empty_or(message, "build cancelled"),
                ),
            ),
        )
    } else {
        None
    }
}

/// `d` is the pause between polls: the shorter of `interval` and the time
/// left, and not zero.
pub open spec fn pause_for(interval: Duration, remaining: Duration, d: Duration) -> bool {
    &&& d == interval || d == remaining
    &&& duration_nanos(d) > 0
    &&& duration_nanos(d) <= duration_nanos(interval)
    &&& duration_nanos(d) <= duration_nanos(remaining)
    &&& duration_nanos(d) == duration_nanos(interval) || duration_nanos(d) == duration_nanos(remaining)
}

/// Between polls: sleep for the shorter of the interval and the time left,
/// or poll again at once (`None`) when that is zero.
pub fn stream_pause(interval: &Duration, remaining: &Duration) -> (res: Option<Duration>)
    ensures
        match res {
            Some(d) => pause_for(*interval, *remaining, d),
            None => duration_nanos(*interval) == 0 || duration_nanos(*remaining) == 0,
        },
{
    let i = nanos_of(interval);
    let r = nanos_of(remaining);
    if i == 0 || r == 0 {
        None
    } else if i <= r {
        Some(*interval)
    } else {
        Some(*remaining)
    }
}

} // verus!
