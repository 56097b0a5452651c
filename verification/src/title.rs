//! The title report: from the output of a metadata-only invocation of the
//! external tool to the media title, or a localized failure message.
//!
//! The tool prints one JSON document on standard output; its `title`
//! field, when it is a string, is the answer. The JSON decoding itself is
//! done by the `serde_json` crate behind the trusted items below. What the
//! decoding yields is a function of the printed bytes alone, so it is
//! given names — whether the bytes decode at all, and which title the
//! decoded document holds — and the report's contract is exact over them.

use vstd::prelude::*;

verus! {

/// Declares `serde_json::Value`, the decoded JSON document, so that it can
/// pass through signatures; the value itself stays opaque.
#[verifier::external_type_specification]
#[verifier::external_body]
pub struct ExJsonValue(serde_json::Value);

/// Names whether the bytes decode as one JSON document; a function of the
/// bytes alone.
pub uninterp spec fn spec_json_ok(bytes: Seq<u8>) -> bool;

/// Names the title of the document the bytes decode to: the content of its
/// `title` field when the document is an object whose `title` field is a
/// string, `None` otherwise. A function of the bytes alone.
pub uninterp spec fn spec_title_of(bytes: Seq<u8>) -> Option<Seq<char>>;

/// Names the title a decoded document holds, in the sense of
/// `spec_title_of`; ties the field lookup to the document's bytes.
pub uninterp spec fn spec_value_title(v: serde_json::Value) -> Option<Seq<char>>;

/// Names the text a decoded value holds when it is a JSON string.
pub uninterp spec fn spec_str_content(v: serde_json::Value) -> Option<Seq<char>>;

/// Relies on `serde_json::from_slice::<serde_json::Value>`: decodes one
/// JSON document from bytes, deterministically, or fails on malformed
/// input with the decoder's own message. The decoded document's title is
/// the title the bytes denote.
#[verifier::external_body]
fn parse_json(bytes: &[u8]) -> (r: Result<serde_json::Value, String>)
    ensures
        r is Ok <==> spec_json_ok(bytes@),
        r matches Ok(v) ==> spec_value_title(v) == spec_title_of(bytes@),
{
    match serde_json::from_slice::<serde_json::Value>(bytes) {
        Ok(v) => Ok(v),
        Err(e) => Err(e.to_string()),
    }
}

/// Relies on `serde_json::Value::get` with a string key: the named field
/// of an object, `None` when the field is absent or the value is no
/// object. Looked up with the `title` key, the field it returns is the one
/// whose string content is the document's title.
#[verifier::external_body]
fn json_get<'a>(v: &'a serde_json::Value, key: &str) -> (r: Option<&'a serde_json::Value>)
    ensures
        key@ == "title"@ ==> match r {
            Some(f) => spec_str_content(*f) == spec_value_title(*v),
            None => spec_value_title(*v) is None,
        },
{
    v.get(key)
}

/// Relies on `serde_json::Value::as_str`: the text when the value is a
/// JSON string, `None` otherwise.
#[verifier::external_body]
fn json_as_string(v: &serde_json::Value) -> (r: Option<String>)
    ensures
        match r {
            Some(s) => spec_str_content(*v) == Some(s@),
            None => spec_str_content(*v) is None,
        },
{
    match v.as_str() {
        Some(s) => Some(s.to_string()),
        None => None,
    }
}

/// The failure prefix in front of a JSON decoding error.
pub open spec fn spec_json_error_prefix() -> Seq<char> {
    "JSONパースエラー: "@
}

/// The failure message of a tool run that exited with an error.
pub open spec fn spec_title_tool_failure(stderr_text: Seq<char>) -> Seq<char> {
    "yt-dlpエラー: "@ + stderr_text
}

/// The failure message of a document that carries no string title.
pub open spec fn spec_title_missing() -> Seq<char> {
    "タイトルが取得できませんでした"@
}

/// The failure message of a metadata-only run whose tool could not be
/// started at all, surfacing the underlying error verbatim.
pub open spec fn spec_title_spawn_failure(detail: Seq<char>) -> Seq<char> {
    "yt-dlp実行エラー: "@ + detail
}

/// Builds the spawn-failure message of the metadata-only run.
pub fn title_spawn_failure_message(detail: &str) -> (m: String)
    ensures
        m@ == spec_title_spawn_failure(detail@),
{
    String::from_str("yt-dlp実行エラー: ").concat(detail)
}

/// Decides the title report from a finished metadata-only run. A failed
/// exit status reports the tool's own error output verbatim behind a fixed
/// prefix. On a successful exit the report is `Ok` exactly when the
/// printed bytes decode to a document with a string title, and that title
/// is returned verbatim; undecodable bytes give the decoding error behind
/// its fixed prefix, a decodable document without a string title gives the
/// missing-title message.
pub fn title_from_output(exit_success: bool, stdout: &[u8], stderr_text: &str) -> (r: Result<
    String,
    String,
>)
    ensures
        !exit_success ==> match r {
            Err(m) => m@ == spec_title_tool_failure(stderr_text@),
            Ok(_) => false,
        },
        exit_success ==> match r {
            Ok(t) => spec_json_ok(stdout@) && spec_title_of(stdout@) == Some(t@),
            Err(m) => (!spec_json_ok(stdout@) && m@.len() >= spec_json_error_prefix().len()
                && m@.subrange(0, spec_json_error_prefix().len() as int)
                == spec_json_error_prefix()) || (spec_json_ok(stdout@) && spec_title_of(stdout@)
                is None && m@ == spec_title_missing()),
        },
{
    if !exit_success {
        return Err(String::from_str("yt-dlpエラー: ").concat(stderr_text));
    }
    let doc = match parse_json(stdout) {
        Ok(v) => v,
        Err(m) => {
            let full = String::from_str("JSONパースエラー: ").concat(m.as_str());
            proof {
                assert(full@.subrange(0, spec_json_error_prefix().len() as int)
                    =~= spec_json_error_prefix());
            }
            return Err(full);
        },
    };
    match json_get(&doc, "title") {
        Some(t) => match json_as_string(t) {
            Some(s) => Ok(s),
            None => Err(String::from_str("タイトルが取得できませんでした")),
        },
        None => Err(String::from_str("タイトルが取得できませんでした")),
    }
}

} // verus!
