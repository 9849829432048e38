//! Composition of the failure alert that is delivered to a webhook.
//!
//! The alert is a JSON object with a single `text` field holding a
//! human-readable message that names the failed endpoint. Delivery is
//! best-effort and happens outside the library; this module pins down
//! exactly what the delivered bytes are.

use vstd::prelude::*;
use vstd::string::StringExecFns;

verus! {

/// The characters before the endpoint address in the alert message.
pub open spec fn alert_prefix() -> Seq<char> {
    "\u{1f6a8} "@
}

/// The characters after the endpoint address in the alert message.
pub open spec fn alert_suffix() -> Seq<char> {
    " is down! \u{1f6a8}"@
}

/// The alert message for a failed endpoint: prefix, address, suffix.
pub open spec fn alert_message_spec(url: Seq<char>) -> Seq<char> {
    alert_prefix() + url + alert_suffix()
}

/// The JSON string literal (quoted and escaped) that serializing `s`
/// produces. Named rather than spelled out: the escaping rules belong
/// to the serializer.
pub uninterp spec fn json_string_of(s: Seq<char>) -> Seq<char>;

/// The notification payload: a JSON object whose `text` field holds the
/// alert message for `url`.
pub open spec fn notification_payload_spec(url: Seq<char>) -> Seq<char> {
    "{\"text\":"@ + json_string_of(alert_message_spec(url)) + "}"@
}

/// Relies on serde_json::to_string on `str`: it returns the JSON string
/// literal for `s` (quoted, with escapes), a function of the characters
/// alone, and never fails for a string.
#[verifier::external_body]
fn json_string_literal(s: &str) -> (r: String)
    ensures
        r@ == json_string_of(s@),
{
    serde_json::to_string(s).expect("serializing a string never fails")
}

/// The human-readable alert message naming the failed endpoint.
pub fn alert_message(url: &str) -> (m: String)
    ensures
        m@ == alert_message_spec(url@),
{
    let mut m = String::from_str("\u{1f6a8} ");
    m.append(url);
    m.append(" is down! \u{1f6a8}");
    proof {
        assert(m@ =~= alert_message_spec(url@));
    }
    m
}

/// The exact bytes to deliver to the webhook when `url` fails its probe.
pub fn notification_payload(url: &str) -> (p: String)
    ensures
        p@ == notification_payload_spec(url@),
{
    let msg = alert_message(url);
    let lit = json_string_literal(msg.as_str());
    let mut p = String::from_str("{\"text\":");
    p.append(lit.as_str());
    p.append("}");
    proof {
        assert(p@ =~= notification_payload_spec(url@));
    }
    p
}

/// The alert message always names the failed endpoint: its address
/// appears verbatim, right after the prefix.
pub proof fn lemma_alert_mentions_target(url: Seq<char>)
    ensures
        alert_message_spec(url).subrange(
            alert_prefix().len() as int,
            (alert_prefix().len() + url.len()) as int,
        ) == url,
{
    assert(alert_message_spec(url).subrange(
        alert_prefix().len() as int,
        (alert_prefix().len() + url.len()) as int,
    ) =~= url);
}

} // verus!
