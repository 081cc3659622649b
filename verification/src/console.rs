//! The request by which the sandbox hands the master side of its
//! pseudoterminal to the owner of the console socket.

use vstd::prelude::*;
use vstd::string::StringExecFns;

verus! {

/// The JSON text of the string `s`: as `serde_json` writes a string value,
/// between double quotes and with its escapes.
pub uninterp spec fn json_string_text(s: Seq<char>) -> Seq<char>;

/// Writes `s` as a JSON string, by `serde_json`'s `Display` for
/// `Value::String`. Trusted: that the text is the one `serde_json` gives
/// for these characters, on every call.
#[verifier::external_body]
fn json_string(s: &str) -> (text: String)
    ensures
        text@ == json_string_text(s@),
{
    serde_json::Value::String(s.to_owned()).to_string()
}

/// The terminal request whose container member is the JSON text `quoted`.
pub open spec fn terminal_request_around(quoted: Seq<char>) -> Seq<char> {
    "{\"type\":\"terminal\",\"container\":"@ + quoted + "}"@
}

/// The terminal request for the container `id`: one JSON object with the
/// members `type` and `container`, in that order.
pub open spec fn terminal_request_text(id: Seq<char>) -> Seq<char> {
    terminal_request_around(json_string_text(id))
}

/// Frames the JSON text of a container's id as a terminal request.
pub fn frame_terminal_request(quoted: &str) -> (request: String)
    ensures
        request@ == terminal_request_around(quoted@),
{
    String::from_str("{\"type\":\"terminal\",\"container\":").concat(quoted).concat("}")
}

/// The message that goes over the console socket together with the master
/// side of the pseudoterminal. It has no trailing newline.
pub fn terminal_request(id: &str) -> (request: String)
    ensures
        request@ == terminal_request_text(id@),
{
    let quoted = json_string(id);
    frame_terminal_request(quoted.as_str())
}

} // verus!
