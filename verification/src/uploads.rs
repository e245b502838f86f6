//! Client-side checks of a file before it is uploaded, and the outcome of
//! the direct upload to storage.

use crate::error::FloopError;
use crate::error::FloopErrorCode;
use crate::text::decimal;
use crate::text::digit_char;
use crate::text::push_char;
use crate::text::str_equal;
use crate::text::u64_text;
use crate::transport::is_success;
use vstd::prelude::*;
use vstd::utf8::encode_utf8;

verus! {

#[verifier::external_type_specification]
#[verifier::external_body]
pub struct ExBytes(bytes::Bytes);

/// The bytes a `bytes::Bytes` buffer holds.
pub uninterp spec fn bytes_contents(b: bytes::Bytes) -> Seq<u8>;

/// `Bytes`'s `Clone`: a second handle on the same bytes.
pub assume_specification[ <bytes::Bytes as Clone>::clone ](b: &bytes::Bytes) -> (r: bytes::Bytes)
    ensures
        bytes_contents(r) == bytes_contents(*b),
;

/// `bytes::Bytes::len`: the number of bytes held.
#[verifier::external_body]
fn bytes_len(b: &bytes::Bytes) -> (n: usize)
    ensures
        n == bytes_contents(*b).len(),
{
    b.len()
}

/// Per-file ceiling enforced by the backend: 5 MiB.
pub const MAX_UPLOAD_BYTES: u64 = 5 * 1024 * 1024;

/// The request path that presigns an upload.
pub const UPLOADS_PATH: &'static str = "/api/v1/uploads";

/// The extensions the backend accepts, each with its MIME type.
pub open spec fn mime_table() -> Seq<(Seq<char>, Seq<char>)> {
    seq![
        (".png"@, "image/png"@),
        (".jpg"@, "image/jpeg"@),
        (".jpeg"@, "image/jpeg"@),
        (".gif"@, "image/gif"@),
        (".svg"@, "image/svg+xml"@),
        (".webp"@, "image/webp"@),
        (".ico"@, "image/x-icon"@),
        (".pdf"@, "application/pdf"@),
        (".txt"@, "text/plain"@),
        (".csv"@, "text/csv"@),
        (".doc"@, "application/msword"@),
        (".docx"@, "application/vnd.openxmlformats-officedocument.wordprocessingml.document"@),
    ]
}

fn mime_entry(i: usize) -> (e: (&'static str, &'static str))
    requires
        i < 12,
    ensures
        e.0@ == mime_table()[i as int].0,
        e.1@ == mime_table()[i as int].1,
{
    match i {
        0 => (".png", "image/png"),
        1 => (".jpg", "image/jpeg"),
        2 => (".jpeg", "image/jpeg"),
        3 => (".gif", "image/gif"),
        4 => (".svg", "image/svg+xml"),
        5 => (".webp", "image/webp"),
        6 => (".ico", "image/x-icon"),
        7 => (".pdf", "application/pdf"),
        8 => (".txt", "text/plain"),
        9 => (".csv", "text/csv"),
        10 => (".doc", "application/msword"),
        _ => (".docx", "application/vnd.openxmlformats-officedocument.wordprocessingml.document"),
    }
}

/// ASCII lower-casing of one byte; other bytes are unchanged.
pub open spec fn ascii_lower(b: u8) -> u8 {
    if 65 <= b <= 90 {
        (b + 32) as u8
    } else {
        b
    }
}

/// The index of the last occurrence of `target` in `bs`.
pub open spec fn last_index_of(bs: Seq<u8>, target: u8) -> Option<int>
    decreases bs.len(),
{
    if bs.len() == 0 {
        None
    } else if bs.last() == target {
        Some(bs.len() - 1)
    } else {
        last_index_of(bs.drop_last(), target)
    }
}

/// The MIME type of the first table entry from index `i` on whose
/// extension's bytes are `ext`.
pub open spec fn mime_from(ext: Seq<u8>, i: nat) -> Option<Seq<char>>
    decreases 12 - i,
{
    if i >= 12 {
        None
    } else if encode_utf8(mime_table()[i as int].0) == ext {
        Some(mime_table()[i as int].1)
    } else {
        mime_from(ext, i + 1)
    }
}

/// The MIME type guessed for a file name given as UTF-8 bytes: the table
/// entry for the lower-cased extension from the last `.` on.
pub open spec fn guessed_mime(name: Seq<u8>) -> Option<Seq<char>> {
    match last_index_of(name, 46) {
        Some(dot) => mime_from(
            name.map_values(|b: u8| ascii_lower(b)).subrange(dot, name.len() as int),
            0,
        ),
        None => None,
    }
}

/// Whether `mime` is one of the table's MIME types.
pub open spec fn allowed_mime(mime: Seq<char>) -> bool {
    exists|i: int| 0 <= i < 12 && #[trigger] mime_table()[i].1 == mime
}

fn last_dot(bs: &[u8]) -> (res: Option<usize>)
    ensures
        res matches Some(d) ==> d < bs@.len() && last_index_of(bs@, 46) == Some(d as int),
        res is None ==> last_index_of(bs@, 46) is None,
{
    let mut i = bs.len();
    assert(bs@.subrange(0, bs@.len() as int) =~= bs@);
    while i > 0
        invariant
            i <= bs@.len(),
            last_index_of(bs@, 46) == last_index_of(bs@.subrange(0, i as int), 46),
        decreases i,
    {
        let ghost prefix = bs@.subrange(0, i as int);
        assert(prefix.drop_last() =~= bs@.subrange(0, i - 1));
        if bs[i - 1] == 46u8 {
            return Some(i - 1);
        }
        i = i - 1;
    }
    None
}

fn lower_byte(b: u8) -> (r: u8)
    ensures
        r == ascii_lower(b),
{
    if 65 <= b && b <= 90 {
        b + 32
    } else {
        b
    }
}

/// Whether the lower-cased bytes of `bs` from `start` on equal `ext`.
fn suffix_is(bs: &[u8], start: usize, ext: &[u8]) -> (r: bool)
    requires
        start <= bs@.len(),
    ensures
        r == (bs@.map_values(|b: u8| ascii_lower(b)).subrange(start as int, bs@.len() as int)
            == ext@),
{
    let ghost lowered = bs@.map_values(|b: u8| ascii_lower(b)).subrange(
        start as int,
        bs@.len() as int,
    );
    if bs.len() - start != ext.len() {
        assert(lowered.len() != ext@.len());
        return false;
    }
    let mut k: usize = 0;
    while k < ext.len()
        invariant
            start + ext.len() == bs.len(),
            k <= ext@.len(),
            lowered == bs@.map_values(|b: u8| ascii_lower(b)).subrange(
                start as int,
                bs@.len() as int,
            ),
            forall|j: int| 0 <= j < k ==> lowered[j] == ext@[j],
        decreases ext@.len() - k,
    {
        if lower_byte(bs[start + k]) != ext[k] {
            assert(lowered[k as int] != ext@[k as int]);
            return false;
        }
        k = k + 1;
    }
    assert(lowered =~= ext@);
    true
}

/// Guesses a MIME type from a file name's extension (compared without
/// regard to ASCII case); `None` when the extension is not on the backend
/// allowlist.
pub fn guess_mime_type(file_name: &str) -> (res: Option<&'static str>)
    ensures
        match guessed_mime(encode_utf8(file_name@)) {
            Some(m) => res matches Some(r) && r@ == m,
            None => res is None,
        },
{
    let bs = file_name.as_bytes();
    let dot = match last_dot(bs) {
        Some(d) => d,
        None => return None,
    };
    let mut i: usize = 0;
    while i < 12
        invariant
            i <= 12,
            bs@ == encode_utf8(file_name@),
            dot < bs@.len(),
            last_index_of(bs@, 46) == Some(dot as int),
            guessed_mime(bs@) == mime_from(
                bs@.map_values(|b: u8| ascii_lower(b)).subrange(dot as int, bs@.len() as int),
                i as nat,
            ),
        decreases 12 - i,
    {
        let (ext, mime) = mime_entry(i);
        if suffix_is(bs, dot, ext.as_bytes()) {
            return Some(mime);
        }
        i = i + 1;
    }
    None
}

/// Whether `mime` is on the backend allowlist.
pub fn is_allowed_mime(mime: &str) -> (r: bool)
    ensures
        r == allowed_mime(mime@),
{
    let mut i: usize = 0;
    while i < 12
        invariant
            i <= 12,
            forall|j: int| 0 <= j < i ==> mime_table()[j].1 != mime@,
        decreases 12 - i,
    {
        let (_, m) = mime_entry(i);
        if str_equal(m, mime) {
            return true;
        }
        i = i + 1;
    }
    false
}

proof fn lemma_mime_from_is_allowed(ext: Seq<u8>, i: nat)
    ensures
        mime_from(ext, i) matches Some(m) ==> allowed_mime(m),
    decreases 12 - i,
{
    if i < 12 {
        if encode_utf8(mime_table()[i as int].0) != ext {
            lemma_mime_from_is_allowed(ext, i + 1);
        }
    }
}

/// Every MIME type guessed from a file name is on the backend allowlist.
pub proof fn law_guessed_type_is_allowed(name: Seq<u8>)
    ensures
        guessed_mime(name) matches Some(m) ==> allowed_mime(m),
{
    if let Some(dot) = last_index_of(name, 46) {
        lemma_mime_from_is_allowed(
            name.map_values(|b: u8| ascii_lower(b)).subrange(dot, name.len() as int),
            0,
        );
    }
}

/// The backend allowlist, written out: exactly these eleven MIME types are
/// allowed, and no other (so neither `image/jpg` nor any type outside the
/// list).
pub proof fn law_allowed_types(mime: Seq<char>)
    ensures
        allowed_mime(mime) <==> mime == "image/png"@ || mime == "image/jpeg"@ || mime
            == "image/gif"@ || mime == "image/svg+xml"@ || mime == "image/webp"@ || mime
            == "image/x-icon"@ || mime == "application/pdf"@ || mime == "text/plain"@ || mime
            == "text/csv"@ || mime == "application/msword"@ || mime
            == "application/vnd.openxmlformats-officedocument.wordprocessingml.document"@,
{
    let t = mime_table();
    if allowed_mime(mime) {
        let i = choose|i: int| 0 <= i < 12 && #[trigger] mime_table()[i].1 == mime;
        assert(t[i].1 == mime);
    } else {
        assert(t[0].1 != mime && t[1].1 != mime && t[2].1 != mime && t[3].1 != mime);
        assert(t[4].1 != mime && t[5].1 != mime && t[6].1 != mime && t[7].1 != mime);
        assert(t[8].1 != mime && t[9].1 != mime && t[10].1 != mime && t[11].1 != mime);
    }
}

/// The bytes of an ASCII text are its code points.
proof fn lemma_ascii_encoding(cs: Seq<char>)
    requires
        forall|j: int| 0 <= j < cs.len() ==> (#[trigger] cs[j] as u32) < 128,
    ensures
        encode_utf8(cs) == cs.map_values(|c: char| (c as u32) as u8),
    decreases cs.len(),
{
    if cs.len() > 0 {
        let rest = cs.drop_first();
        assert forall|j: int| 0 <= j < rest.len() implies (#[trigger] rest[j] as u32) < 128 by {
            assert(rest[j] == cs[j + 1]);
        }
        lemma_ascii_encoding(rest);
        let v = cs[0] as u32;
        assert((v & 0x7F) as u8 == v as u8) by (bit_vector)
            requires
                v < 128,
        ;
        assert(encode_utf8(cs) =~= cs.map_values(|c: char| (c as u32) as u8));
    }
}

/// What the guess needs of an extension in the table: it starts with its
/// only `.`, it is ASCII, and no earlier entry has the same extension.
proof fn lemma_table_extension(k: int)
    requires
        0 <= k < 12,
    ensures
        mime_table()[k].0.len() >= 2,
        mime_table()[k].0[0] == '.',
        forall|j: int|
            1 <= j < mime_table()[k].0.len() ==> #[trigger] mime_table()[k].0[j] != '.'
                && (mime_table()[k].0[j] as u32) < 128,
        forall|i: int| 0 <= i < k ==> #[trigger] mime_table()[i].0 != mime_table()[k].0,
{
    reveal_strlit(".png");
    reveal_strlit(".jpg");
    reveal_strlit(".jpeg");
    reveal_strlit(".gif");
    reveal_strlit(".svg");
    reveal_strlit(".webp");
    reveal_strlit(".ico");
    reveal_strlit(".pdf");
    reveal_strlit(".txt");
    reveal_strlit(".csv");
    reveal_strlit(".doc");
    reveal_strlit(".docx");
    let t = mime_table();
    assert forall|i: int| 0 <= i < k implies #[trigger] t[i].0 != t[k].0 by {
        if t[i].0.len() == t[k].0.len() {
            assert(t[i].0[1] != t[k].0[1] || t[i].0[2] != t[k].0[2] || t[i].0[3] != t[k].0[3]);
        }
    }
}

/// The last `.` of `stem + ext` is the first byte of `ext` when that is the
/// only `.` in `ext`.
proof fn lemma_last_dot_of_suffix(stem: Seq<u8>, ext: Seq<u8>)
    requires
        ext.len() > 0,
        ext[0] == 46,
        forall|j: int| 1 <= j < ext.len() ==> #[trigger] ext[j] != 46,
    ensures
        last_index_of(stem + ext, 46) == Some(stem.len() as int),
    decreases ext.len(),
{
    let name = stem + ext;
    if ext.len() > 1 {
        let front = ext.drop_last();
        assert forall|j: int| 1 <= j < front.len() implies #[trigger] front[j] != 46 by {
            assert(front[j] == ext[j]);
        }
        lemma_last_dot_of_suffix(stem, front);
        assert(name.drop_last() =~= stem + front);
        assert(name.last() == ext[ext.len() - 1]);
    } else {
        assert(name.last() == ext[0]);
    }
}

/// The table lookup for the bytes of entry `k`'s extension finds entry `k`.
proof fn lemma_mime_from_finds(ext: Seq<u8>, k: int, i: nat)
    requires
        0 <= k < 12,
        i <= k,
        ext == encode_utf8(mime_table()[k].0),
    ensures
        mime_from(ext, i) == Some(mime_table()[k].1),
    decreases k - i,
{
    if i < k {
        lemma_table_extension(k);
        let a = mime_table()[i as int].0;
        assert(a != mime_table()[k].0);
        vstd::utf8::encode_utf8_decode_utf8(a);
        vstd::utf8::encode_utf8_decode_utf8(mime_table()[k].0);
        lemma_mime_from_finds(ext, k, i + 1);
    }
}

/// A name made of any stem and entry `k`'s extension, in any ASCII case,
/// is guessed as entry `k`'s type.
proof fn lemma_guess_for_entry(stem: Seq<u8>, ext: Seq<u8>, k: int)
    requires
        0 <= k < 12,
        ext.map_values(|b: u8| ascii_lower(b)) == encode_utf8(mime_table()[k].0),
    ensures
        guessed_mime(stem + ext) == Some(mime_table()[k].1),
{
    let x = mime_table()[k].0;
    lemma_table_extension(k);
    lemma_ascii_encoding(x);
    let bytes = encode_utf8(x);
    let lowered = ext.map_values(|b: u8| ascii_lower(b));
    assert(lowered.len() == x.len());
    assert(ext[0] == 46) by {
        assert(lowered[0] == bytes[0]);
    }
    assert forall|j: int| 1 <= j < ext.len() implies #[trigger] ext[j] != 46 by {
        assert(lowered[j] == bytes[j]);
        assert(lowered[j] == ascii_lower(ext[j]));
        assert(bytes[j] == (x[j] as u32) as u8);
        assert(x[j] != '.');
        let v = x[j] as u32;
        if v == 46 {
            vstd::utf8::char_u32_cast(x[j], v);
            vstd::utf8::char_u32_cast('.', 46u32);
        }
    }
    lemma_last_dot_of_suffix(stem, ext);
    let name = stem + ext;
    let dot = stem.len() as int;
    assert(name.map_values(|b: u8| ascii_lower(b)).subrange(dot, name.len() as int) =~= lowered);
    lemma_mime_from_finds(lowered, k, 0);
}

/// The type guessed for a file name is fixed by its extension, compared
/// without regard to ASCII case, whatever comes before it: `.png` is
/// `image/png`, `.jpg` and `.jpeg` are `image/jpeg`, `.gif` is `image/gif`,
/// `.svg` is `image/svg+xml`, `.webp` is `image/webp`, `.ico` is
/// `image/x-icon`, `.pdf` is `application/pdf`, `.txt` is `text/plain`,
/// `.csv` is `text/csv`, `.doc` is `application/msword` and `.docx` is the
/// Word document type.
pub proof fn law_extension_decides_type(stem: Seq<u8>, ext: Seq<u8>)
    ensures
        ext.map_values(|b: u8| ascii_lower(b)) == encode_utf8(".png"@) ==> guessed_mime(stem + ext)
            == Some("image/png"@),
        ext.map_values(|b: u8| ascii_lower(b)) == encode_utf8(".jpg"@) ==> guessed_mime(stem + ext)
            == Some("image/jpeg"@),
        ext.map_values(|b: u8| ascii_lower(b)) == encode_utf8(".jpeg"@) ==> guessed_mime(
            stem + ext,
        ) == Some("image/jpeg"@),
        ext.map_values(|b: u8| ascii_lower(b)) == encode_utf8(".gif"@) ==> guessed_mime(stem + ext)
            == Some("image/gif"@),
        ext.map_values(|b: u8| ascii_lower(b)) == encode_utf8(".svg"@) ==> guessed_mime(stem + ext)
            == Some("image/svg+xml"@),
        ext.map_values(|b: u8| ascii_lower(b)) == encode_utf8(".webp"@) ==> guessed_mime(
            stem + ext,
        ) == Some("image/webp"@),
        ext.map_values(|b: u8| ascii_lower(b)) == encode_utf8(".ico"@) ==> guessed_mime(stem + ext)
            == Some("image/x-icon"@),
        ext.map_values(|b: u8| ascii_lower(b)) == encode_utf8(".pdf"@) ==> guessed_mime(stem + ext)
            == Some("application/pdf"@),
        ext.map_values(|b: u8| ascii_lower(b)) == encode_utf8(".txt"@) ==> guessed_mime(stem + ext)
            == Some("text/plain"@),
        ext.map_values(|b: u8| ascii_lower(b)) == encode_utf8(".csv"@) ==> guessed_mime(stem + ext)
            == Some("text/csv"@),
        ext.map_values(|b: u8| ascii_lower(b)) == encode_utf8(".doc"@) ==> guessed_mime(stem + ext)
            == Some("application/msword"@),
        ext.map_values(|b: u8| ascii_lower(b)) == encode_utf8(".docx"@) ==> guessed_mime(
            stem + ext,
        ) == Some("application/vnd.openxmlformats-officedocument.wordprocessingml.document"@),
{
    let lowered = ext.map_values(|b: u8| ascii_lower(b));
    let t = mime_table();
    if lowered == encode_utf8(".png"@) {
        lemma_guess_for_entry(stem, ext, 0);
    }
    if lowered == encode_utf8(".jpg"@) {
        lemma_guess_for_entry(stem, ext, 1);
    }
    if lowered == encode_utf8(".jpeg"@) {
        lemma_guess_for_entry(stem, ext, 2);
    }
    if lowered == encode_utf8(".gif"@) {
        lemma_guess_for_entry(stem, ext, 3);
    }
    if lowered == encode_utf8(".svg"@) {
        lemma_guess_for_entry(stem, ext, 4);
    }
    if lowered == encode_utf8(".webp"@) {
        lemma_guess_for_entry(stem, ext, 5);
    }
    if lowered == encode_utf8(".ico"@) {
        lemma_guess_for_entry(stem, ext, 6);
    }
    if lowered == encode_utf8(".pdf"@) {
        lemma_guess_for_entry(stem, ext, 7);
    }
    if lowered == encode_utf8(".txt"@) {
        lemma_guess_for_entry(stem, ext, 8);
    }
    if lowered == encode_utf8(".csv"@) {
        lemma_guess_for_entry(stem, ext, 9);
    }
    if lowered == encode_utf8(".doc"@) {
        lemma_guess_for_entry(stem, ext, 10);
    }
    if lowered == encode_utf8(".docx"@) {
        lemma_guess_for_entry(stem, ext, 11);
    }
}

/// A file that was uploaded, in the form `Projects::refine` attaches.
#[derive(Debug, Clone)]
pub struct UploadedAttachment {
    pub key: String,
    pub file_name: String,
    pub file_type: String,
    pub file_size: u64,
}

/// A single file to upload. An explicit `file_type` overrides the guess
/// from the extension.
#[derive(Debug, Clone)]
pub struct CreateUploadInput {
    pub file_name: String,
    pub bytes: bytes::Bytes,
    pub file_type: Option<String>,
}

/// A size in MiB to tenths, rounded to nearest with ties to even.
pub open spec fn mib_tenths(size: nat) -> nat {
    let q = size * 10 / 1048576;
    let r = size * 10 % 1048576;
    if r > 524288 || (r == 524288 && q % 2 == 1) {
        q + 1
    } else {
        q
    }
}

/// A size in MiB with one decimal, such as `5.2`.
pub open spec fn mib_text(size: nat) -> Seq<char> {
    decimal(mib_tenths(size) / 10) + seq!['.', digit_char((mib_tenths(size) % 10) as int)]
}

/// The MIME type an upload is sent with: the explicit one, else the guess
/// from the file name.
pub open spec fn resolved_type(name: Seq<char>, explicit: Option<Seq<char>>) -> Option<Seq<char>> {
    match explicit {
        Some(t) => Some(t),
        None => guessed_mime(encode_utf8(name)),
    }
}

/// The verdict on an upload before any request is made: the MIME type to
/// send, or the message of the validation error.
pub open spec fn upload_verdict(name: Seq<char>, explicit: Option<Seq<char>>, size: nat) -> Result<
    Seq<char>,
    Seq<char>,
> {
    if name.len() == 0 {
        Err("uploads: file_name is required"@)
    } else {
        match resolved_type(name, explicit) {
            None => Err(
                "uploads: unsupported file type for "@ + name
                    + ". Allowed: png, jpg, gif, svg, webp, ico, pdf, txt, csv, doc, docx."@,
            ),
            Some(t) => if !allowed_mime(t) {
                Err("uploads: file type "@ + t + " is not on the backend allowlist"@)
            } else if size > MAX_UPLOAD_BYTES {
                Err(
                    "uploads: "@ + name + " is "@ + mib_text(size) + " MB — the upload limit is "@
                        + decimal(5) + " MB."@,
                )
            } else {
                Ok(t)
            },
        }
    }
}

/// An upload that passes the checks has a file name, a MIME type on the
/// backend allowlist and a size within `MAX_UPLOAD_BYTES`.
pub proof fn law_accepted_upload_is_within_limits(
    name: Seq<char>,
    explicit: Option<Seq<char>>,
    size: nat,
)
    ensures
        upload_verdict(name, explicit, size) matches Ok(t) ==> name.len() > 0 && allowed_mime(t)
            && size <= MAX_UPLOAD_BYTES,
{
}

/// Without an explicit type, an upload is refused exactly when its
/// extension is unknown or it is too large (or it has no name).
pub proof fn law_guessed_upload_fails_only_on_name_or_size(name: Seq<char>, size: nat)
    ensures
        upload_verdict(name, None, size) is Ok <==> name.len() > 0 && guessed_mime(
            encode_utf8(name),
        ) is Some && size <= MAX_UPLOAD_BYTES,
{
    law_guessed_type_is_allowed(encode_utf8(name));
}

fn mib_text_of(size: u64) -> (s: String)
    ensures
        s@ == mib_text(size as nat),
{
    let scaled: u128 = size as u128 * 10;
    let q: u128 = scaled / 1048576;
    let r: u128 = scaled % 1048576;
    let tenths: u128 = if r > 524288 || (r == 524288 && q % 2 == 1) {
        q + 1
    } else {
        q
    };
    let mut s = u64_text((tenths / 10) as u64);
    push_char(&mut s, '.');
    let last: u8 = (tenths % 10) as u8;
    let digit_byte: u8 = 48u8 + last;
    push_char(&mut s, digit_byte as char);
    s
}

fn validation_error(message: String) -> (e: FloopError)
    ensures
        e.code == FloopErrorCode::ValidationError,
        e.status == 0,
        e.message == message,
        e.request_id is None,
        e.retry_after is None,
{
    FloopError::new(FloopErrorCode::ValidationError, 0, message)
}

/// Checks an upload before any request: the file name is present, the MIME
/// type (explicit or guessed) is on the allowlist and the file is at most
/// `MAX_UPLOAD_BYTES`. Returns the MIME type and the size to send.
pub fn prepare_upload(input: &CreateUploadInput) -> (res: Result<(String, u64), FloopError>)
    ensures
        match upload_verdict(
            input.file_name@,
            match input.file_type {
                Some(t) => Some(t@),
                None => None,
            },
            bytes_contents(input.bytes).len(),
        ) {
            Ok(t) => res matches Ok(ok) && ok.0@ == t && ok.1 == bytes_contents(input.bytes).len(),
            Err(m) => res matches Err(e) && e.code == FloopErrorCode::ValidationError && e.status
                == 0 && e.message@ == m && e.request_id is None && e.retry_after is None,
        },
{
    let name = input.file_name.as_str();
    if name.is_empty() {
        return Err(validation_error("uploads: file_name is required".to_owned()));
    }
    let file_type = match &input.file_type {
        Some(t) => t.clone(),
        None => match guess_mime_type(name) {
            Some(m) => m.to_owned(),
            None => {
                let mut msg = "uploads: unsupported file type for ".to_owned();
                msg.append(name);
                msg.append(". Allowed: png, jpg, gif, svg, webp, ico, pdf, txt, csv, doc, docx.");
                return Err(validation_error(msg));
            },
        },
    };
    if !is_allowed_mime(file_type.as_str()) {
        let mut msg = "uploads: file type ".to_owned();
        msg.append(file_type.as_str());
        msg.append(" is not on the backend allowlist");
        return Err(validation_error(msg));
    }
    let size = bytes_len(&input.bytes) as u64;
    if size > MAX_UPLOAD_BYTES {
        let mut msg = "uploads: ".to_owned();
        msg.append(name);
        msg.append(" is ");
        let mib = mib_text_of(size);
        msg.append(mib.as_str());
        msg.append(" MB — the upload limit is ");
        let limit = u64_text(MAX_UPLOAD_BYTES / (1024 * 1024));
        msg.append(limit.as_str());
        msg.append(" MB.");
        assert(MAX_UPLOAD_BYTES / 1048576u64 == 5);
        return Err(validation_error(msg));
    }
    Ok((file_type, size))
}

/// The first 512 characters of `s` (all of it when shorter).
pub open spec fn clipped(s: Seq<char>) -> Seq<char> {
    if s.len() <= 512 {
        s
    } else {
        s.subrange(0, 512)
    }
}

/// The outcome of the direct upload to storage: the uploaded attachment for
/// a 2xx status, else `Unknown` carrying the status and
/// `uploads: S3 rejected PUT (STATUS): BODY`, with the body clipped to 512
/// characters.
pub fn finish_upload(
    status: u16,
    body: &str,
    key: String,
    file_name: String,
    file_type: String,
    size: u64,
) -> (res: Result<UploadedAttachment, FloopError>)
    ensures
        res is Ok <==> is_success(status),
        res matches Ok(a) ==> a.key == key && a.file_name == file_name && a.file_type == file_type
            && a.file_size == size,
        res matches Err(e) ==> e.code == FloopErrorCode::Unknown && e.status == status
            && e.message@ == "uploads: S3 rejected PUT ("@ + decimal(status as nat) + "): "@
            + clipped(body@) && e.request_id is None && e.retry_after is None,
{
    if 200 <= status && status <= 299 {
        return Ok(UploadedAttachment { key, file_name, file_type, file_size: size });
    }
    let mut msg = "uploads: S3 rejected PUT (".to_owned();
    let digits = u64_text(status as u64);
    msg.append(digits.as_str());
    msg.append("): ");
    if body.unicode_len() <= 512 {
        msg.append(body);
    } else {
        msg.append(body.substring_char(0, 512));
    }
    Err(FloopError::new(FloopErrorCode::Unknown, status, msg))
}

/// The error for a direct upload that got no response:
/// `NetworkError` with `uploads: S3 PUT failed — DETAIL`.
pub fn upload_send_failure(detail: &str) -> (e: FloopError)
    ensures
        e.code == FloopErrorCode::NetworkError,
        e.status == 0,
        e.message@ == "uploads: S3 PUT failed — "@ + detail@,
        e.request_id is None,
        e.retry_after is None,
{
    let mut msg = "uploads: S3 PUT failed — ".to_owned();
    msg.append(detail);
    FloopError::new(FloopErrorCode::NetworkError, 0, msg)
}

} // verus!
