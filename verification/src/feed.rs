//! The stateless gateway policy for the remote change feed: how an HTTP
//! status classifies, and the watermark sent on a first request.

use vstd::prelude::*;

use crate::errors::ErrorType;

verus! {

/// Classify a response status: 403 means the key was rejected, any other
/// non-success status is a transient transport failure, and a success
/// status passes.
pub fn classify_status(status: u16) -> (r: Result<(), ErrorType>)
    ensures
        status == 403 ==> (r matches Err(e) && e is BadToken),
        200 <= status < 300 ==> r is Ok,
        !(200 <= status < 300) && status != 403 ==> (r matches Err(e) && e is BadHttpRequest),
{
    if status == 403 {
        Err(ErrorType::BadToken(String::from_str("access forbidden: check key or permissions")))
    } else if 200 <= status && status < 300 {
        Ok(())
    } else {
        Err(ErrorType::BadHttpRequest(String::from_str("unexpected response status")))
    }
}

/// The watermark to query with: the stored one, or the zero sentinel where
/// none has ever been recorded.
pub fn watermark_or_default(watermark: Option<String>) -> (r: String)
    ensures
        r@ == (match watermark {
            Option::Some(w) => w@,
            Option::None => "0"@,
        }),
{
    match watermark {
        Some(w) => w,
        None => String::from_str("0"),
    }
}

} // verus!
