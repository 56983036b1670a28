//! Reading the relay's response body: a JSON document whose `transactionId`
//! member carries the relay-assigned identifier of an accepted submission.

use vstd::prelude::*;

verus! {

/// The `transactionId` member of the JSON document `body`: the bytes of that
/// member's text where `body` is valid JSON carrying `transactionId` as a
/// string, nothing otherwise.
pub uninterp spec fn transaction_id_of(body: Seq<char>) -> Option<Seq<u8>>;

/// Relies on serde_json (`from_str`, `Value::get` and `Value::as_str`):
/// parses `body` as JSON and reads its `transactionId` member. The call
/// returns the member's text exactly when `body` parses and carries it as a
/// string; the result depends on the characters of `body` alone.
#[verifier::external_body]
pub(crate) fn extract_transaction_id(body: &str) -> (r: Option<Vec<u8>>)
    ensures
        match r {
            Some(v) => transaction_id_of(body@) == Some(v@),
            None => transaction_id_of(body@) is None,
        },
{
    let document: serde_json::Value = match serde_json::from_str(body) {
        Ok(v) => v,
        Err(_) => return None,
    };
    match document.get("transactionId") {
        Some(member) => member.as_str().map(|s| s.as_bytes().to_vec()),
        None => None,
    }
}

} // verus!
