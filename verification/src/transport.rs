//! What the transport brings back from a call, and what the library makes of it.

use vstd::prelude::*;

use crate::text::decimal;
use crate::ErrorView;

verus! {

/// The end of one GET call, as the caller's transport saw it.
#[derive(Debug, Clone)]
pub enum Reply {
    /// The service answered with this status and this body.
    Response { status: u16, body: String },
    /// No answer came: the reason, in the transport's words.
    Failure { reason: String },
}

/// The status that the service gives to a key it does not accept.
pub const UNAUTHORIZED: u16 = 401;

/// The statuses that stand for success.
pub open spec fn is_success(status: int) -> bool {
    200 <= status < 300
}

/// Whether `status` stands for success, so that the body is worth reading.
pub fn status_is_success(status: u16) -> (success: bool)
    ensures
        success == is_success(status as int),
{
    200 <= status && status < 300
}

/// What is reported for a status that is neither a success nor 401.
pub open spec fn status_message(status: int) -> Seq<char> {
    "HTTP status "@ + decimal(status)
}

/// What a reply means to a client that holds `key`: the body of a success,
/// an expired key for 401, and a transport error for everything else.
pub open spec fn reply_result(key: Seq<char>, reply: Reply) -> Result<Seq<char>, ErrorView> {
    match reply {
        Reply::Response { status, body } => {
            if is_success(status as int) {
                Ok(body@)
            } else if status == UNAUTHORIZED {
                Err(ErrorView::InvalidOrExpiredKey(key))
            } else {
                Err(ErrorView::TransportError(status_message(status as int)))
            }
        },
        Reply::Failure { reason } => Err(ErrorView::TransportError(reason@)),
    }
}

} // verus!
