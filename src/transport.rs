use vstd::prelude::*;
use vstd::string::*;

use crate::error::ChatError;

verus! {

/// Where chat requests are sent.
pub const CHAT_ENDPOINT: &'static str = "https://openrouter.ai/api/v1/chat/completions";

/// Whether an HTTP status reports success.
pub open spec fn is_success(status: u16) -> bool {
    200 <= status <= 299
}

/// The value of the `Authorization` header for an API key.
pub fn authorization_value(api_key: &str) -> (r: String)
    ensures
        r@ == "Bearer "@ + api_key@,
{
    String::from_str("Bearer ").concat(api_key)
}

/// Success for a 2xx status; otherwise the failure, with the body kept for diagnostics.
pub fn check_status(status: u16, body: String) -> (r: Result<(), ChatError>)
    ensures
        r is Ok <==> is_success(status),
        r matches Err(e) ==> (e matches ChatError::RequestFailed { status: s, body: b } && s == status
            && b@ == body@),
{
    if 200 <= status && status <= 299 {
        Ok(())
    } else {
        Err(ChatError::RequestFailed { status, body })
    }
}

} // verus!
