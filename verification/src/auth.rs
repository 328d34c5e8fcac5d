use vstd::prelude::*;

use crate::errors::AppError;
use crate::errors::ErrorView;

verus! {

/// The fixed shared secret every non-preflight request must present in the
/// `x-api-key` header.
pub open spec fn api_key() -> Seq<char> {
    "supersecret123"@
}

/// The view of an optional header value.
pub open spec fn key_view(key: Option<&String>) -> Option<Seq<char>> {
    match key {
        Some(k) => Some(k@),
        None => None,
    }
}

/// Whether the key check lets a request through: preflight requests pass
/// unconditionally; every other request needs the exact shared secret,
/// case-sensitive, whole-value.
pub open spec fn gate_allows(preflight: bool, key: Option<Seq<char>>) -> bool {
    preflight || key == Some(api_key())
}

/// The key-check decision for one inbound request, taken before route
/// dispatch.
///
/// `preflight` says whether the request method is the cross-origin preflight
/// method (OPTIONS); `key` is the `x-api-key` header value, if present.
/// On `Ok` the request is delegated to route dispatch; on `Err` it is
/// short-circuited with the returned error.
pub fn api_key_middleware(preflight: bool, key: Option<&String>) -> (r: Result<(), AppError>)
    ensures
        r is Ok <==> gate_allows(preflight, key_view(key)),
        r matches Err(e) ==> e@ == ErrorView::Unauthorized("Invalid API key"@),
{
    if preflight {
        return Ok(());
    }
    match key {
        Some(k) => {
            let secret: String = "supersecret123".to_owned();
            if *k == secret {
                Ok(())
            } else {
                Err(AppError::Unauthorized("Invalid API key".to_owned()))
            }
        },
        None => Err(AppError::Unauthorized("Invalid API key".to_owned())),
    }
}

} // verus!
