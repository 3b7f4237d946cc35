//! Messages from Godot to the page: the text is encoded as a JSON string,
//! so that it can be embedded in JavaScript as it is, and handed to the
//! page's `window.onIpcMessage` handler where the page defines one.

use vstd::prelude::*;

use crate::text::{push_str, string_from_chars};

verus! {

/// The JSON string literal that `serde_json::to_string` makes of `s`:
/// quoted, with quotes, backslashes and control characters escaped.
pub uninterp spec fn json_string_of(s: Seq<char>) -> Seq<char>;

/// Calls `serde_json::to_string` on a string. Serialising a string into
/// the in-memory buffer that `to_string` uses cannot fail, so the result is
/// always present; its text is named [`json_string_of`] of the input.
#[verifier::external_body]
fn json_string(s: &str) -> (r: Option<String>)
    ensures
        r is Some,
        r.unwrap()@ == json_string_of(s@),
{
    serde_json::to_string(s).ok()
}

/// The script that hands the JSON value `json` to the page's
/// `window.onIpcMessage` handler, if the page defines one.
pub open spec fn ipc_script_of(json: Seq<char>) -> Seq<char> {
    "if (typeof window.onIpcMessage === 'function') { window.onIpcMessage("@ + json + "); }"@
}

/// The script for an encoded message; where the encoding failed, the page
/// receives the empty string `""`.
pub fn ipc_message_script(json: Option<String>) -> (r: String)
    ensures
        r@ == ipc_script_of(
            match json {
                Some(j) => j@,
                None => "\"\""@,
            },
        ),
{
    let mut v: Vec<char> = Vec::new();
    push_str(&mut v, "if (typeof window.onIpcMessage === 'function') { window.onIpcMessage(");
    match &json {
        Some(j) => push_str(&mut v, j.as_str()),
        None => push_str(&mut v, "\"\""),
    }
    push_str(&mut v, "); }");
    assert(v@ =~= ipc_script_of(
        match json {
            Some(j) => j@,
            None => "\"\""@,
        },
    ));
    string_from_chars(&v)
}

/// The script that delivers `message` to the page: the message encoded as
/// a JSON string and passed to `window.onIpcMessage`.
pub fn ipc_script(message: &str) -> (r: String)
    ensures
        r@ == ipc_script_of(json_string_of(message@)),
{
    ipc_message_script(json_string(message))
}

} // verus!
