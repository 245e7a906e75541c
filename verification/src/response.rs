//! Interpreting the release-creation response: the 2xx rule, and the `id`
//! and `url` fields of the response body.

use vstd::prelude::*;

use crate::errors::{PublishError, PublishErrorV};
use crate::{is_success, spec_is_success};

verus! {

/// A created release as the forge reports it: its server-assigned numeric id
/// and its web URL.
#[derive(Debug)]
pub struct Release {
    pub id: u64,
    pub url: String,
}

/// The mathematical model of a created release.
pub ghost struct ReleaseV {
    pub id: u64,
    pub url: Seq<char>,
}

impl View for Release {
    type V = ReleaseV;

    open spec fn view(&self) -> ReleaseV {
        ReleaseV { id: self.id, url: self.url@ }
    }
}

/// The `id` field of a release-creation response body, when the body is a
/// JSON object carrying an unsigned integer under that key.
pub uninterp spec fn release_id_of(body: Seq<char>) -> Option<u64>;

/// The `url` field of a release-creation response body, when the body is a
/// JSON object carrying a string under that key.
pub uninterp spec fn release_url_of(body: Seq<char>) -> Option<Seq<char>>;

/// Relies on serde_json::from_str::<serde_json::Value>, Value::get,
/// Value::as_u64, Value::as_str and str::to_owned: parsing a fixed text and
/// looking up its fields are functions of that text alone.
#[verifier::external_body]
fn extract_release_fields(body: &str) -> (r: Option<(u64, String)>)
    ensures
        r is Some <==> (release_id_of(body@) is Some && release_url_of(body@) is Some),
        r is Some ==> Some(r->Some_0.0) == release_id_of(body@),
        r is Some ==> Some(r->Some_0.1@) == release_url_of(body@),
{
    let v: serde_json::Value = serde_json::from_str(body).ok()?;
    let id = v.get("id")?.as_u64()?;
    let url = v.get("url")?.as_str()?.to_owned();
    Some((id, url))
}

/// Turn a response status and the fields found in its body into the created
/// release, or the error the response deserves: a status outside 2xx fails
/// with that status and the raw body, a 2xx body without the required fields
/// fails as unparseable.
pub fn interpret_create_response(status: u16, fields: Option<(u64, String)>, body: String) -> (r:
    Result<Release, PublishError>)
    ensures
        !spec_is_success(status) ==> r is Err && r->Err_0@ == (PublishErrorV::ReleaseCreation {
            status,
            body: body@,
        }),
        spec_is_success(status) && fields is None ==> r is Err && r->Err_0@
            == (PublishErrorV::ResponseParse { body: body@ }),
        spec_is_success(status) && fields is Some ==> r is Ok && r->Ok_0@ == (ReleaseV {
            id: fields->Some_0.0,
            url: fields->Some_0.1@,
        }),
{
    if !is_success(status) {
        return Err(PublishError::ReleaseCreation { status, body });
    }
    match fields {
        None => Err(PublishError::ResponseParse { body }),
        Some((id, url)) => Ok(Release { id, url }),
    }
}

/// Handle a release-creation response: apply the 2xx rule, then read the
/// `id` and `url` fields out of the body.
pub fn handle_create_response(status: u16, body: String) -> (r: Result<Release, PublishError>)
    ensures
        !spec_is_success(status) ==> r is Err && r->Err_0@ == (PublishErrorV::ReleaseCreation {
            status,
            body: body@,
        }),
        spec_is_success(status) && (release_id_of(body@) is None || release_url_of(body@) is None)
            ==> r is Err && r->Err_0@ == (PublishErrorV::ResponseParse { body: body@ }),
        spec_is_success(status) && release_id_of(body@) is Some && release_url_of(body@) is Some
            ==> r is Ok && r->Ok_0@ == (ReleaseV {
            id: release_id_of(body@)->Some_0,
            url: release_url_of(body@)->Some_0,
        }),
{
    let fields = extract_release_fields(body.as_str());
    interpret_create_response(status, fields, body)
}

} // verus!
