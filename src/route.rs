//! The single endpoint the relay serves.
use vstd::prelude::*;
use vstd::string::StringExecFns;
use crate::reply::Failure;

verus! {

/// Path of the upload endpoint.
pub const UPLOAD_PATH: &'static str = "/upload";

/// Method the upload endpoint takes.
pub const UPLOAD_METHOD: &'static str = "POST";

pub open spec fn is_upload_route(path: Seq<char>, method: Seq<char>) -> bool {
    path == "/upload"@ && method == "POST"@
}

/// Accepts exactly `POST /upload`; anything else is not found.
pub fn route(path: &str, method: &str) -> (r: Result<(), Failure>)
    ensures
        is_upload_route(path@, method@) ==> r is Ok,
        !is_upload_route(path@, method@) ==> r == Err::<(), Failure>(Failure::RouteNotFound),
{
    let p = String::from_str(path);
    let m = String::from_str(method);
    let want_p = String::from_str(UPLOAD_PATH);
    let want_m = String::from_str(UPLOAD_METHOD);
    if p == want_p && m == want_m {
        Ok(())
    } else {
        Err(Failure::RouteNotFound)
    }
}

} // verus!
