use vstd::prelude::*;

use crate::api::{ErrorResponse, ErrorResponseV};

verus! {

/// The bearer token a caller of the widget endpoint presented.
pub struct ApiAuth(pub String);

/// The body sent back when the admission check turns a caller away.
pub open spec fn spec_unauthorized_error() -> ErrorResponseV {
    ErrorResponseV {
        code: "UNAUTHORIZED"@,
        message: "Invalid api access key"@,
        details: None,
    }
}

/// The admission decision for the widget endpoint: the presented bearer
/// token is admitted exactly when it equals the configured access key.
pub fn access_key_checker(bearer: ApiAuth, expected_key: &String) -> (r: Result<
    String,
    ErrorResponse,
>)
    ensures
        bearer.0@ == expected_key@ ==> (r matches Ok(t) && t@ == bearer.0@),
        bearer.0@ != expected_key@ ==> (r matches Err(e) && e@ == spec_unauthorized_error()),
{
    let ApiAuth(header_data) = bearer;
    if header_data == *expected_key {
        Ok(header_data)
    } else {
        Err(
            ErrorResponse {
                code: "UNAUTHORIZED".to_owned(),
                message: "Invalid api access key".to_owned(),
                details: None,
            },
        )
    }
}

} // verus!
