//! Authentication frame for the WebSocket plugin protocol.
//!
//! Immediately after a successful upgrade the supervisor sends one JSON
//! frame identifying this application and carrying the caller-supplied API
//! key; only after that send succeeds is the write handle published.
use vstd::prelude::*;
use vstd::string::StringExecFns;

verus! {

/// The JSON string literal (quotes included) that serde_json produces for
/// the characters `s`: the text wrapped in `"` with `"`, `\` and control
/// characters escaped. A function of the characters alone.
pub uninterp spec fn json_quoted(s: Seq<char>) -> Seq<char>;

/// Relies on serde_json::to_string applied to a `&str`: it returns the JSON
/// string literal for exactly those characters, it never fails for a string
/// slice (only a `Serialize` impl that errors, or a non-string map key, can
/// make it fail), and its output depends on the characters alone.
#[verifier::external_body]
fn json_quote(s: &str) -> (r: String)
    ensures
        r@ == json_quoted(s@),
{
    serde_json::to_string(s).unwrap()
}

/// The authentication frame for a given API key: a fixed JSON object with
/// the quoted key as its one variable part.
pub open spec fn auth_frame_spec(api_key: Seq<char>) -> Seq<char> {
    "{\"type\":\"auth\",\"payload\":{\"identifier\":\"com.radj.teamspeak-overlive\",\"version\":\"1.0.1\",\"name\":\"TeamSpeak OverLive\",\"description\":\"Overlay widget for TeamSpeak 6 and 3\",\"content\":{\"apiKey\":"@
        + json_quoted(api_key) + "},\"autoApprove\":true}}"@
}

/// Build the authentication frame, embedding the caller-supplied API key
/// verbatim (JSON-quoted) in the nested `content.apiKey` field and
/// requesting automatic approval.
pub fn build_auth_frame(api_key: &str) -> (frame: String)
    ensures
        frame@ == auth_frame_spec(api_key@),
{
    let quoted = json_quote(api_key);
    let mut frame = String::new();
    frame.append(
        "{\"type\":\"auth\",\"payload\":{\"identifier\":\"com.radj.teamspeak-overlive\",\"version\":\"1.0.1\",\"name\":\"TeamSpeak OverLive\",\"description\":\"Overlay widget for TeamSpeak 6 and 3\",\"content\":{\"apiKey\":",
    );
    frame.append(quoted.as_str());
    frame.append("},\"autoApprove\":true}}");
    frame
}

} // verus!
