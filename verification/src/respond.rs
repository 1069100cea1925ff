//! The structured per-request error envelope: a malformed JSON request
//! body is answered with `{"error": ...}` rather than a generic failure
//! page.

use vstd::prelude::*;
use vstd::string::StringExecFns;

verus! {

/// The JSON error envelope carrying `msg` as the error text.
pub fn error_body(msg: &str) -> (r: String)
    ensures
        r@ == "{\"error\":\""@ + msg@ + "\"}"@,
{
    let mut s = String::from_str("{\"error\":\"");
    s.append(msg);
    s.append("\"}");
    s
}

} // verus!
