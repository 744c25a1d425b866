//! Reading the replies of HTTP services.

use crate::text::decimal;
use vstd::prelude::*;

verus! {

/// The reason phrase that the HTTP library shows for the status `code`: the
/// canonical one, or a fixed phrase when the code has none.
pub uninterp spec fn reason_phrase(code: u16) -> Seq<char>;

/// The integer member `key` of the JSON object that `text` holds; `None` when
/// `text` is not JSON, holds no object, or has no such member that is an integer
/// of 64 bits.
pub uninterp spec fn integer_member_of(text: Seq<char>, key: Seq<char>) -> Option<i64>;

/// Whether `code` is a status code.
pub open spec fn is_status(code: u16) -> bool {
    100 <= code <= 999
}

/// How the status `code` is shown: its number and its reason phrase.
pub open spec fn status_text(code: u16) -> Seq<char> {
    decimal(code as int) + " "@ + reason_phrase(code)
}

/// Whether `code` stands for success.
pub open spec fn success_code(code: u16) -> bool {
    200 <= code < 300
}

/// `Display` of `reqwest::StatusCode`, on the status code that
/// `StatusCode::from_u16` makes of `code`: the number in decimal, a space and
/// the reason phrase. `from_u16` takes the codes from 100 to 999 and no others.
#[verifier::external_body]
pub(crate) fn status_line(code: u16) -> (r: String)
    requires
        is_status(code),
    ensures
        r@ == decimal(code as int) + " "@ + reason_phrase(code),
{
    reqwest::StatusCode::from_u16(code).unwrap().to_string()
}

/// `serde_json::from_str` to a `Value`, and `Value::get` and `Value::as_i64` on
/// what comes out: nothing is claimed of the result but that `text` and `key`
/// determine it.
#[verifier::external_body]
pub(crate) fn integer_member(text: &str, key: &str) -> (r: Option<i64>)
    ensures
        r == integer_member_of(text@, key@),
{
    serde_json::from_str::<serde_json::Value>(text).ok()?.get(key)?.as_i64()
}

/// Whether `code` stands for success.
pub fn is_success(code: u16) -> (b: bool)
    ensures
        b == success_code(code),
{
    200 <= code && code < 300
}

// ---------------------------------------------------------------------------
// Laws
// ---------------------------------------------------------------------------

/// The codes from 200 to 299 are those of success, and a status is shown as its
/// number and its reason phrase.
pub proof fn law_statuses(code: u16)
    ensures
        success_code(code) <==> 200 <= code && code <= 299,
        is_status(code) <==> 100 <= code && code <= 999,
        status_text(code) == decimal(code as int) + " "@ + reason_phrase(code),
{
}

} // verus!
