//! Publishing a tagged source release through a Gitea-style forge's REST
//! API: resolving the configuration, building the release-creation request,
//! interpreting the response, expanding asset patterns into files, and
//! uploading each asset in order, failing fast on the first error. The
//! workflow is a state machine whose every decision is made on plain values;
//! a thin unverified binary carries the HTTP requests and file reads out.

pub mod config;
pub mod errors;
pub mod globs;
pub mod payload;
pub mod pipeline;
pub mod response;
pub mod text;

use vstd::prelude::*;

verus! {

/// An HTTP status counts as success exactly when it lies in the 2xx range.
pub open spec fn spec_is_success(status: u16) -> bool {
    200 <= status < 300
}

/// Exec form of the 2xx rule used to interpret every forge response.
pub fn is_success(status: u16) -> (r: bool)
    ensures
        r == spec_is_success(status),
{
    200 <= status && status < 300
}

} // verus!
