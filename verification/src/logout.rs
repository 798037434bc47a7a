//! The portal's logout call: where it goes and what its reply means.

use vstd::prelude::*;
use crate::protocol::json_i64_field;
use crate::protocol::spec_json_i64_field;

verus! {

/// Typed outcome of a failed logout.
#[derive(Clone, Debug)]
pub enum LogoutError {
    /// The portal answered, but not with `result` 1; carries the reply.
    JSON(String),
    /// The network transport failed; carries the transport's message.
    Request(String),
}

impl LogoutError {
    /// A human-readable description of the error.
    pub fn describe(&self) -> (r: String)
        ensures
            self matches LogoutError::JSON(m) ==> r@ == m@,
            self matches LogoutError::Request(m) ==> r@ == m@,
    {
        match self {
            LogoutError::JSON(m) => m.clone(),
            LogoutError::Request(m) => m.clone(),
        }
    }
}

/// The URL of the portal's logout endpoint under `base_url`.
pub fn logout_request_url(base_url: &str) -> (r: String)
    ensures
        r@ == base_url@ + "/loginOut"@,
{
    String::from_str(base_url).concat("/loginOut")
}

/// Classify the logout reply: integer `result` 1 means logged out; any
/// other reply is handed back whole.
pub fn parse_result(body: &str) -> (r: Result<(), LogoutError>)
    ensures
        spec_json_i64_field(body@, "result"@) == Some(1i64) ==> r is Ok,
        spec_json_i64_field(body@, "result"@) != Some(1i64) ==> (r matches Err(
            LogoutError::JSON(b),
        ) && b@ == body@),
{
    match json_i64_field(body, "result") {
        Some(code) => {
            if code == 1 {
                Ok(())
            } else {
                Err(LogoutError::JSON(String::from_str(body)))
            }
        },
        None => Err(LogoutError::JSON(String::from_str(body))),
    }
}

} // verus!
