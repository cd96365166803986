//! Publishing a finished video: what is sent to the hosting service, and
//! what its answers mean.
//!
//! The exchange has two steps. The first asks for a slot and gets back the
//! address to send the bytes to and the path of the video's page; the second
//! sends the bytes. The caller speaks to the service; the decisions are here.

use vstd::prelude::*;
use vstd::string::StringExecFns;
use serde_json::Value;
use crate::paths::chars_of;
use crate::text::{append_index, decimal_digits};

verus! {

/// `serde_json::Value`, a value of any JSON kind. The library sees nothing
/// inside it.
#[verifier::external_type_specification]
#[verifier::external_body]
pub struct ExValue(Value);

/// The texts that a JSON value holds, each under the path of keys that leads
/// to it from the value, object by object. A value that is itself a text
/// holds that text under the empty path; a value that is neither a text nor
/// an object holds none.
pub uninterp spec fn json_texts(value: Value) -> Map<Seq<Seq<char>>, Seq<char>>;

/// The text under a path, if there is one.
pub open spec fn text_at(
    texts: Map<Seq<Seq<char>>, Seq<char>>,
    path: Seq<Seq<char>>,
) -> Option<Seq<char>> {
    if texts.contains_key(path) {
        Some(texts[path])
    } else {
        None
    }
}

/// The texts whose paths start with `key`, each under the rest of its path.
pub open spec fn texts_under(
    texts: Map<Seq<Seq<char>>, Seq<char>>,
    key: Seq<char>,
) -> Map<Seq<Seq<char>>, Seq<char>> {
    Map::new(
        |path: Seq<Seq<char>>| texts.contains_key(seq![key] + path),
        |path: Seq<Seq<char>>| texts[seq![key] + path],
    )
}

/// Indexing a `serde_json::Value` by a key: the member of that name, or the
/// null value where there is none or the value is no object. The member
/// holds the texts that the value holds under paths that start with the key.
#[verifier::external_body]
pub(crate) fn member(value: &Value, key: &str) -> (r: Value)
    ensures
        json_texts(r) == texts_under(json_texts(*value), key@),
{
    value[key].clone()
}

/// Indexing a `serde_json::Value` by a key, then `Value::as_str`: the text
/// of the member of that name, if there is such a member and it is a text.
#[verifier::external_body]
pub(crate) fn member_text(value: &Value, key: &str) -> (r: Option<String>)
    ensures
        match r {
            Some(text) => text_at(json_texts(*value), seq![key@]) == Some(text@),
            None => text_at(json_texts(*value), seq![key@]) is None,
        },
{
    value[key].as_str().map(String::from)
}

/// Why a video was not published. Where the cause lies outside, the variant
/// holds the outside text of it.
#[derive(Debug)]
pub enum UploadError {
    /// The video file could not be read.
    ReadFile(String),
    /// The request for a slot could not be sent.
    CreateRequest(String),
    /// The service refused the slot.
    Api(String),
    /// The service's answer could not be read.
    ParseResponse(String),
    /// The answer names no address to send the bytes to.
    NoUploadLink,
    /// The answer names no page of the video.
    NoVideoUri,
    /// The bytes could not be sent.
    Transfer(String),
    /// The service refused the bytes.
    UploadFailed(String),
}

/// Where the bytes go, and where the video will be shown.
#[derive(Debug)]
pub struct UploadTargets {
    pub upload_link: String,
    pub video_uri: String,
}

/// The text of an upload error.
pub open spec fn upload_error_text(error: UploadError) -> Seq<char> {
    match error {
        UploadError::ReadFile(cause) => "Failed to read video file: "@ + cause@,
        UploadError::CreateRequest(cause) => "Failed to create upload: "@ + cause@,
        UploadError::Api(answer) => "Vimeo API error: "@ + answer@,
        UploadError::ParseResponse(cause) => "Failed to parse response: "@ + cause@,
        UploadError::NoUploadLink => "No upload link in response"@,
        UploadError::NoVideoUri => "No video URI in response"@,
        UploadError::Transfer(cause) => "Failed to upload video: "@ + cause@,
        UploadError::UploadFailed(answer) => "Upload failed: "@ + answer@,
    }
}

/// Whether `s` starts with `prefix`.
pub open spec fn has_prefix(s: Seq<char>, prefix: Seq<char>) -> bool {
    s.len() >= prefix.len() && s.take(prefix.len() as int) == prefix
}

/// `s` with `with` in place of every occurrence of `pattern`, found from the
/// left, none overlapping another. An empty pattern occurs nowhere.
pub open spec fn replaced(s: Seq<char>, pattern: Seq<char>, with: Seq<char>) -> Seq<char>
    decreases s.len(),
{
    if pattern.len() == 0 || s.len() == 0 {
        s
    } else if has_prefix(s, pattern) {
        with + replaced(s.skip(pattern.len() as int), pattern, with)
    } else {
        seq![s[0]] + replaced(s.drop_first(), pattern, with)
    }
}

/// The header that authorizes a request.
pub open spec fn bearer_text(token: Seq<char>) -> Seq<char> {
    "bearer "@ + token
}

/// The address of the page of a video, from the path that the service calls
/// it by.
pub open spec fn video_link_text(video_uri: Seq<char>) -> Seq<char> {
    "https://vimeo.com"@ + replaced(video_uri, "/videos/"@, "/"@)
}

/// A text followed by a cause.
fn with_cause(text: &str, cause: &String) -> (r: String)
    ensures
        r@ == text@ + cause@,
{
    let mut r = String::from_str(text);
    r.append(cause.as_str());
    r
}

impl UploadError {
    /// The text that reaches the caller.
    pub fn message(&self) -> (r: String)
        ensures
            r@ == upload_error_text(*self),
    {
        match self {
            UploadError::ReadFile(cause) => with_cause("Failed to read video file: ", cause),
            UploadError::CreateRequest(cause) => with_cause("Failed to create upload: ", cause),
            UploadError::Api(answer) => with_cause("Vimeo API error: ", answer),
            UploadError::ParseResponse(cause) => with_cause("Failed to parse response: ", cause),
            UploadError::NoUploadLink => String::from_str("No upload link in response"),
            UploadError::NoVideoUri => String::from_str("No video URI in response"),
            UploadError::Transfer(cause) => with_cause("Failed to upload video: ", cause),
            UploadError::UploadFailed(answer) => with_cause("Upload failed: ", answer),
        }
    }
}

/// Whether `pattern` stands in `text` at `at`.
fn occurs_at(text: &Vec<char>, at: usize, pattern: &Vec<char>) -> (r: bool)
    requires
        at <= text.len(),
    ensures
        r == has_prefix(text@.skip(at as int), pattern@),
{
    if text.len() - at < pattern.len() {
        return false;
    }
    let ghost rest = text@.skip(at as int);
    let mut i: usize = 0;
    while i < pattern.len()
        invariant
            at + pattern.len() <= text.len(),
            rest == text@.skip(at as int),
            i <= pattern.len(),
            forall|j: int| 0 <= j < i ==> rest[j] == pattern@[j],
        decreases pattern.len() - i,
    {
        if text[at + i] != pattern[i] {
            return false;
        }
        i += 1;
    }
    assert(rest.take(pattern.len() as int) =~= pattern@);
    true
}

/// Replaces every occurrence of `pattern` in `text` by `with`.
pub fn replace_all(text: &str, pattern: &str, with: &str) -> (r: String)
    ensures
        r@ == replaced(text@, pattern@, with@),
{
    let chars = chars_of(text);
    let wanted = chars_of(pattern);
    if wanted.len() == 0 {
        return String::from_str(text);
    }
    let ghost whole = replaced(text@, pattern@, with@);
    let mut out = String::new();
    let mut i: usize = 0;
    assert(chars@.skip(0) =~= chars@);
    while i < chars.len()
        invariant
            i <= chars.len(),
            chars@ == text@,
            wanted@ == pattern@,
            wanted.len() > 0,
            whole == replaced(text@, pattern@, with@),
            out@ + replaced(chars@.skip(i as int), pattern@, with@) == whole,
        decreases chars.len() - i,
    {
        let ghost rest = chars@.skip(i as int);
        if occurs_at(&chars, i, &wanted) {
            out.append(with);
            assert(rest.skip(pattern@.len() as int) =~= chars@.skip(i + wanted.len()));
            i += wanted.len();
        } else {
            out.push(chars[i]);
            assert(rest.drop_first() =~= chars@.skip(i + 1));
            i += 1;
        }
    }
    out
}

/// The header that authorizes a request with the caller's token.
pub fn bearer(access_token: &str) -> (r: String)
    ensures
        r@ == bearer_text(access_token@),
{
    let mut r = String::from_str("bearer ");
    r.append(access_token);
    r
}

/// The size of the video, as the request for a slot states it.
pub fn upload_size(bytes: usize) -> (r: String)
    ensures
        r@ == decimal_digits(bytes as nat),
{
    let mut r = String::new();
    append_index(&mut r, bytes);
    r
}

/// The address of the page of a video.
pub fn video_link(video_uri: &str) -> (r: String)
    ensures
        r@ == video_link_text(video_uri@),
{
    let mut link = String::from_str("https://vimeo.com");
    let path = replace_all(video_uri, "/videos/", "/");
    link.append(path.as_str());
    link
}

/// What the answer to the request for a slot means: an error with the
/// service's text where the service refused.
pub fn slot_granted(accepted: bool, answer: String) -> (r: Result<(), UploadError>)
    ensures
        accepted ==> r is Ok,
        !accepted ==> (r matches Err(UploadError::Api(text)) && text@ == answer@),
{
    if accepted {
        Ok(())
    } else {
        Err(UploadError::Api(answer))
    }
}

/// Where to send the bytes and where the video will be shown, from what the
/// answer names. A missing address is told before a missing page.
pub fn upload_targets(upload_link: Option<String>, video_uri: Option<String>) -> (r: Result<
    UploadTargets,
    UploadError,
>)
    ensures
        match (upload_link, video_uri) {
            (None, _) => r matches Err(UploadError::NoUploadLink),
            (Some(_), None) => r matches Err(UploadError::NoVideoUri),
            (Some(link), Some(uri)) => r matches Ok(targets) && targets.upload_link@ == link@
                && targets.video_uri@ == uri@,
        },
{
    match upload_link {
        None => Err(UploadError::NoUploadLink),
        Some(link) => match video_uri {
            None => Err(UploadError::NoVideoUri),
            Some(uri) => Ok(UploadTargets { upload_link: link, video_uri: uri }),
        },
    }
}

/// The address to send the bytes to, as the service's answer names it: the
/// text `upload_link` of its member `upload`.
pub open spec fn upload_link_in(texts: Map<Seq<Seq<char>>, Seq<char>>) -> Option<Seq<char>> {
    text_at(texts, seq!["upload"@, "upload_link"@])
}

/// The path of the video's page, as the service's answer names it: its text
/// `uri`.
pub open spec fn video_uri_in(texts: Map<Seq<Seq<char>>, Seq<char>>) -> Option<Seq<char>> {
    text_at(texts, seq!["uri"@])
}

/// Where to send the bytes and where the video will be shown, from the
/// service's answer to the request for a slot: the text `upload_link` of its
/// member `upload`, and its text `uri`. A missing address is told before a
/// missing page.
pub fn targets_in(answer: &Value) -> (r: Result<UploadTargets, UploadError>)
    ensures
        match (upload_link_in(json_texts(*answer)), video_uri_in(json_texts(*answer))) {
            (None, _) => r matches Err(UploadError::NoUploadLink),
            (Some(_), None) => r matches Err(UploadError::NoVideoUri),
            (Some(link), Some(uri)) => r matches Ok(targets) && targets.upload_link@ == link
                && targets.video_uri@ == uri,
        },
{
    let upload = member(answer, "upload");
    let link = member_text(&upload, "upload_link");
    let uri = member_text(answer, "uri");
    assert(seq!["upload"@] + seq!["upload_link"@] =~= seq!["upload"@, "upload_link"@]);
    upload_targets(link, uri)
}

/// What the answer to the transfer means: the address of the video's page,
/// or an error with the service's text where the service refused.
pub fn transfer_done(accepted: bool, answer: String, video_uri: &str) -> (r: Result<
    String,
    UploadError,
>)
    ensures
        accepted ==> (r matches Ok(link) && link@ == video_link_text(video_uri@)),
        !accepted ==> (r matches Err(UploadError::UploadFailed(text)) && text@ == answer@),
{
    if accepted {
        Ok(video_link(video_uri))
    } else {
        Err(UploadError::UploadFailed(answer))
    }
}

} // verus!
