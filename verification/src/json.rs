//! The JSON that goes out to the provider.
//!
//! Texts are quoted by `serde_json`; the object around them is laid out
//! here.

use vstd::prelude::*;
use vstd::string::*;

verus! {

/// `serde_json::Error`: what `serde_json` reports where it cannot write a
/// value. Nothing is known of an error but that there is one.
#[verifier::external_type_specification]
#[verifier::external_body]
pub struct ExJsonError(serde_json::Error);

/// The JSON string that `serde_json` writes for a text, quotes included, or
/// `None` where it reports an error instead.
pub uninterp spec fn json_string(text: Seq<char>) -> Option<Seq<char>>;

/// `serde_json::to_string` on a `str`: the text as a JSON string. The
/// contract only gives the outcome its name, `json_string`; it claims
/// nothing of what the string holds, nor that the call succeeds.
#[verifier::external_body]
fn quote(text: &str) -> (quoted: Result<String, serde_json::Error>)
    ensures
        match quoted {
            Ok(q) => json_string(text@) == Some(q@),
            Err(_) => json_string(text@) is None,
        },
{
    serde_json::to_string(text)
}

/// The body of a record update, given the record's name and its new
/// content as JSON strings: an "A" record with automatic TTL, not proxied.
pub open spec fn update_body_around(quoted_name: Seq<char>, quoted_content: Seq<char>) -> Seq<char> {
    "{\"type\":\"A\",\"name\":"@ + quoted_name + ",\"content\":"@ + quoted_content
        + ",\"ttl\":1,\"proxied\":false}"@
}

/// The body of a record update for a name and a content, or `None` where
/// one of the two cannot be quoted.
pub open spec fn update_body(dns_name: Seq<char>, content: Seq<char>) -> Option<Seq<char>> {
    match (json_string(dns_name), json_string(content)) {
        (Some(n), Some(c)) => Some(update_body_around(n, c)),
        _ => None,
    }
}

/// Lays out the body of a record update around the two JSON strings that
/// it holds.
pub fn frame_update_body(quoted_name: &str, quoted_content: &str) -> (body: String)
    ensures
        body@ == update_body_around(quoted_name@, quoted_content@),
{
    let mut body = String::from_str("{\"type\":\"A\",\"name\":");
    body.append(quoted_name);
    body.append(",\"content\":");
    body.append(quoted_content);
    body.append(",\"ttl\":1,\"proxied\":false}");
    body
}

/// Writes the body of a record update that sets the record of `dns_name`
/// to `content`. Gives `None` exactly where `serde_json` fails to quote one
/// of the two.
pub fn encode_update_body(dns_name: &str, content: &str) -> (body: Option<String>)
    ensures
        match body {
            Some(b) => update_body(dns_name@, content@) == Some(b@),
            None => update_body(dns_name@, content@) is None,
        },
{
    match quote(dns_name) {
        Ok(name) => match quote(content) {
            Ok(value) => Some(frame_update_body(name.as_str(), value.as_str())),
            Err(_) => None,
        },
        Err(_) => None,
    }
}

} // verus!
