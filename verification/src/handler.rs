//! The request handler: every request gets the same friendly answer.

use vstd::prelude::*;
use vstd::string::StringExecFns;

verus! {

/// An HTTP response as far as the handler decides it: the status code and the
/// body.
#[derive(Debug, PartialEq, Eq)]
pub struct Reply {
    pub status: u16,
    pub body: String,
}

/// The status of a successful response.
pub const STATUS_OK: u16 = 200;

/// The body of every response.
pub open spec fn greeting() -> Seq<char> {
    "hello, world!"@
}

/// Answers a request. The request is not looked at: the answer is always a
/// success with the greeting as its body.
pub fn serve_req<R>(_req: R) -> (reply: Reply)
    ensures
        reply.status == STATUS_OK,
        reply.body@ == greeting(),
{
    Reply { status: STATUS_OK, body: String::from_str("hello, world!") }
}

} // verus!
