//! The publishing workflow as a state machine: every decision is made here
//! on plain values, while the caller only carries requests out and hands the
//! responses back.

use vstd::prelude::*;
use vstd::string::StringExecFns;

use crate::config::{ConfigModel, PublishConfig};
use crate::errors::{PublishError, PublishErrorV};
use crate::globs::{expand_patterns, glob_pattern_ok, spec_unique};
use crate::payload::{build_payload, spec_payload};
use crate::response::{handle_create_response, release_id_of, release_url_of};
use crate::spec_is_success;
use crate::text::{spec_dec_digits, u64_to_dec, views_of};

verus! {

/// The releases-collection URL of the configured repository.
pub open spec fn spec_releases_url(base: Seq<char>, owner: Seq<char>, name: Seq<char>) -> Seq<
    char,
> {
    base + "/api/v1/repos/"@ + owner + "/"@ + name + "/releases"@
}

/// The asset-collection URL of a created release.
pub open spec fn spec_assets_url(
    base: Seq<char>,
    owner: Seq<char>,
    name: Seq<char>,
    id: u64,
) -> Seq<char> {
    spec_releases_url(base, owner, name) + "/"@ + spec_dec_digits(id as nat) + "/assets"@
}

/// Build the URL the release-creation request is posted to.
pub fn releases_url(cfg: &PublishConfig) -> (r: String)
    ensures
        r@ == spec_releases_url(cfg@.base_url, cfg@.repo_owner, cfg@.repo_name),
{
    let mut u = String::new();
    u.append(cfg.base_url.as_str());
    u.append("/api/v1/repos/");
    u.append(cfg.repo_owner.as_str());
    u.append("/");
    u.append(cfg.repo_name.as_str());
    u.append("/releases");
    proof {
        assert(u@ =~= spec_releases_url(cfg@.base_url, cfg@.repo_owner, cfg@.repo_name));
    }
    u
}

/// Build the URL the asset uploads of a release are posted to.
pub fn assets_url(cfg: &PublishConfig, id: u64) -> (r: String)
    ensures
        r@ == spec_assets_url(cfg@.base_url, cfg@.repo_owner, cfg@.repo_name, id),
{
    let mut u = releases_url(cfg);
    u.append("/");
    let dec = u64_to_dec(id);
    u.append(dec.as_str());
    u.append("/assets");
    proof {
        assert(u@ =~= spec_assets_url(cfg@.base_url, cfg@.repo_owner, cfg@.repo_name, id));
    }
    u
}

/// Where the run stands. Any state moves to `Failed` on the first error met
/// in it, and `Done` and `Failed` are terminal.
#[derive(Debug)]
pub enum State {
    /// The configuration is resolved; the create request is owed.
    CreatingRelease { cfg: PublishConfig },
    /// The release exists; the asset patterns are owed their expansion.
    ExpandingAssets { release_url: String, assets_url: String, patterns: Vec<String> },
    /// The expanded files are uploaded one at a time, in order.
    UploadingAssets { release_url: String, assets_url: String, files: Vec<String>, next: usize },
    /// The run succeeded; the release URL is reported.
    Done { release_url: String },
    /// The run failed; the error names the failing step.
    Failed { error: PublishError },
}

/// The mathematical model of a run's state.
pub ghost enum StateV {
    CreatingRelease { cfg: ConfigModel },
    ExpandingAssets { release_url: Seq<char>, assets_url: Seq<char>, patterns: Seq<Seq<char>> },
    UploadingAssets {
        release_url: Seq<char>,
        assets_url: Seq<char>,
        files: Seq<Seq<char>>,
        next: int,
    },
    Done { release_url: Seq<char> },
    Failed { error: PublishErrorV },
}

impl View for State {
    type V = StateV;

    open spec fn view(&self) -> StateV {
        match self {
            State::CreatingRelease { cfg } => StateV::CreatingRelease { cfg: cfg@ },
            State::ExpandingAssets { release_url, assets_url, patterns } => StateV::ExpandingAssets {
                release_url: release_url@,
                assets_url: assets_url@,
                patterns: views_of(patterns@),
            },
            State::UploadingAssets { release_url, assets_url, files, next } => StateV::UploadingAssets {
                release_url: release_url@,
                assets_url: assets_url@,
                files: views_of(files@),
                next: *next as int,
            },
            State::Done { release_url } => StateV::Done { release_url: release_url@ },
            State::Failed { error } => StateV::Failed { error: error@ },
        }
    }
}

/// A state is well formed when its upload index lies inside its file list.
pub open spec fn state_wf(s: StateV) -> bool {
    match s {
        StateV::UploadingAssets { files, next, .. } => 0 <= next < files.len(),
        _ => true,
    }
}

/// The one piece of outside work the caller owes the run in its current
/// state.
#[derive(Debug)]
pub enum Work {
    /// Post the payload to the URL and hand back status and body.
    SendCreate { url: String, payload: String },
    /// Ask the library to expand the asset patterns.
    ExpandAssets,
    /// Read the file at `path` and post its bytes to the URL under `name`;
    /// hand back status and body, or that the read failed.
    SendUpload { url: String, name: String, path: String },
}

/// Enter the workflow with a resolved configuration.
pub fn init(cfg: PublishConfig) -> (s: State)
    ensures
        s@ == (StateV::CreatingRelease { cfg: cfg@ }),
{
    State::CreatingRelease { cfg }
}

/// The next piece of outside work, or nothing when the run is over. A run
/// that is `Done` or `Failed` asks for no further work, so no request is ever
/// issued past the first error.
pub fn next_action(s: &State) -> (r: Option<Work>)
    ensures
        s@ is Done || s@ is Failed ==> r is None,
        s@ matches StateV::CreatingRelease { cfg } ==> (r matches Some(w) && w matches
            Work::SendCreate { url, payload } && url@ == spec_releases_url(
            cfg.base_url,
            cfg.repo_owner,
            cfg.repo_name,
        ) && payload@ == spec_payload(
            cfg.tag_name,
            cfg.release_name,
            cfg.release_body,
            cfg.is_prerelease,
            cfg.is_draft,
        )),
        s@ is ExpandingAssets ==> (r matches Some(w) && w is ExpandAssets),
        s@ matches StateV::UploadingAssets { assets_url, files, next, .. } ==> (0 <= next
            < files.len() ==> (r matches Some(w) && w matches Work::SendUpload { url, name, path }
            && url@ == assets_url && name@ == files[next] && path@ == files[next])),
        s@ matches StateV::UploadingAssets { files, next, .. } ==> (next >= files.len() ==> r
            is None),
{
    match s {
        State::CreatingRelease { cfg } => {
            let url = releases_url(cfg);
            let payload = build_payload(cfg);
            Some(Work::SendCreate { url, payload })
        },
        State::ExpandingAssets { .. } => Some(Work::ExpandAssets),
        State::UploadingAssets { release_url: _, assets_url, files, next } => {
            if *next < files.len() {
                Some(
                    Work::SendUpload {
                        url: assets_url.clone(),
                        name: files[*next].clone(),
                        path: files[*next].clone(),
                    },
                )
            } else {
                None
            }
        },
        State::Done { .. } => None,
        State::Failed { .. } => None,
    }
}

/// How a state answers an HTTP response: the full transition function of the
/// create and upload steps. States that owe no response are left unchanged.
pub open spec fn spec_step_response(s: StateV, status: u16, body: Seq<char>) -> StateV {
    match s {
        StateV::CreatingRelease { cfg } => {
            if !spec_is_success(status) {
                StateV::Failed { error: PublishErrorV::ReleaseCreation { status, body } }
            } else if release_id_of(body) is None || release_url_of(body) is None {
                StateV::Failed { error: PublishErrorV::ResponseParse { body } }
            } else {
                let id = release_id_of(body)->Some_0;
                let url = release_url_of(body)->Some_0;
                match cfg.asset_patterns {
                    None => StateV::Done { release_url: url },
                    Some(pats) => StateV::ExpandingAssets {
                        release_url: url,
                        assets_url: spec_assets_url(
                            cfg.base_url,
                            cfg.repo_owner,
                            cfg.repo_name,
                            id,
                        ),
                        patterns: pats,
                    },
                }
            }
        },
        StateV::UploadingAssets { release_url, assets_url, files, next } => {
            if !(0 <= next < files.len()) {
                s
            } else if !spec_is_success(status) {
                StateV::Failed {
                    error: PublishErrorV::AssetUpload { path: files[next], status, body },
                }
            } else if next + 1 == files.len() {
                StateV::Done { release_url }
            } else {
                StateV::UploadingAssets { release_url, assets_url, files, next: next + 1 }
            }
        },
        _ => s,
    }
}

/// Feed the run the status and body that answered its outstanding request.
pub fn step_response(s: State, status: u16, body: String) -> (r: State)
    ensures
        r@ == spec_step_response(s@, status, body@),
        state_wf(s@) ==> state_wf(r@),
{
    match s {
        State::CreatingRelease { cfg } => {
            match handle_create_response(status, body) {
                Err(e) => State::Failed { error: e },
                Ok(rel) => {
                    let au = assets_url(&cfg, rel.id);
                    match cfg.asset_patterns {
                        None => State::Done { release_url: rel.url },
                        Some(pats) => State::ExpandingAssets {
                            release_url: rel.url,
                            assets_url: au,
                            patterns: pats,
                        },
                    }
                },
            }
        },
        State::UploadingAssets { release_url, assets_url, files, next } => {
            if next >= files.len() {
                State::UploadingAssets { release_url, assets_url, files, next }
            } else if !crate::is_success(status) {
                let path = files[next].clone();
                State::Failed { error: PublishError::AssetUpload { path, status, body } }
            } else if next + 1 == files.len() {
                State::Done { release_url }
            } else {
                State::UploadingAssets { release_url, assets_url, files, next: next + 1 }
            }
        },
        other => other,
    }
}

/// How an uploading state answers a failed file read: the run fails naming
/// that file. States that owe no read are left unchanged.
pub open spec fn spec_step_read_failed(s: StateV) -> StateV {
    match s {
        StateV::UploadingAssets { files, next, .. } => {
            if 0 <= next < files.len() {
                StateV::Failed { error: PublishErrorV::AssetRead { path: files[next] } }
            } else {
                s
            }
        },
        _ => s,
    }
}

/// Tell the run that the file of its outstanding upload could not be read.
pub fn step_read_failed(s: State) -> (r: State)
    ensures
        r@ == spec_step_read_failed(s@),
{
    match s {
        State::UploadingAssets { release_url, assets_url, files, next } => {
            if next < files.len() {
                let path = files[next].clone();
                State::Failed { error: PublishError::AssetRead { path } }
            } else {
                State::UploadingAssets { release_url, assets_url, files, next }
            }
        },
        other => other,
    }
}

/// Expand the asset patterns of an expecting state: the run moves on to
/// uploading the matched files, is done at once when nothing matched, and
/// fails on an invalid pattern or an unreadable path. Other states are left
/// unchanged.
pub fn step_expand(s: State) -> (r: State)
    ensures
        !(s@ is ExpandingAssets) ==> r@ == s@,
        state_wf(s@) ==> state_wf(r@),
        s@ is ExpandingAssets ==> (r@ is Done || r@ is UploadingAssets || r@ is Failed),
        s@ matches StateV::ExpandingAssets { release_url, .. } ==> (r@ is Done ==> r@
            == (StateV::Done { release_url })),
        s@ matches StateV::ExpandingAssets { release_url, patterns, .. } ==> (patterns.len() == 0
            ==> r@ == (StateV::Done { release_url })),
        s matches State::ExpandingAssets { patterns: ps, .. } ==> ((r@ is Done || r@
            is UploadingAssets) ==> (forall|i: int|
            0 <= i < ps@.len() ==> glob_pattern_ok(#[trigger] ps@[i]@))),
        s@ matches StateV::ExpandingAssets { release_url, assets_url, patterns } ==> (r@ matches
            StateV::UploadingAssets { release_url: r2, assets_url: a2, files, next } ==> (r2
            == release_url && a2 == assets_url && next == 0 && 0 < files.len() && spec_unique(
            files,
        ))),
        s@ is ExpandingAssets ==> (r@ matches StateV::Failed { error } ==> (error is Glob || error
            is AssetRead)),
        s matches State::ExpandingAssets { patterns: ps, .. } ==> ((forall|i: int|
            0 <= i < ps@.len() ==> glob_pattern_ok(#[trigger] ps@[i]@)) ==> (r@ matches
            StateV::Failed { error } ==> error is AssetRead)),
{
    match s {
        State::ExpandingAssets { release_url, assets_url, patterns } => {
            match expand_patterns(&patterns) {
                Err(e) => State::Failed { error: e },
                Ok(files) => {
                    if files.len() == 0 {
                        State::Done { release_url }
                    } else {
                        State::UploadingAssets { release_url, assets_url, files, next: 0 }
                    }
                },
            }
        },
        other => other,
    }
}

/// With no asset patterns configured, a run performs exactly one network
/// call: from the initial state the only owed work is the create request
/// (see `next_action`), any successful response carrying the release fields
/// ends the run in `Done` with the reported URL, and a finished run owes no
/// further work.
pub proof fn lemma_one_call_without_assets(cfg: ConfigModel, status: u16, body: Seq<char>)
    requires
        cfg.asset_patterns is None,
        spec_is_success(status),
        release_id_of(body) is Some,
        release_url_of(body) is Some,
    ensures
        spec_step_response(StateV::CreatingRelease { cfg }, status, body) == (StateV::Done {
            release_url: release_url_of(body)->Some_0,
        }),
{
}

/// The upload loop is fail-fast: a response outside the 2xx range while
/// uploading any file fails the run at once, naming exactly that file with
/// the status and body it got, and a failed run owes no further work (see
/// `next_action`), so no later file is ever attempted.
pub proof fn lemma_upload_fail_fast(
    release_url: Seq<char>,
    assets_url: Seq<char>,
    files: Seq<Seq<char>>,
    next: int,
    status: u16,
    body: Seq<char>,
)
    requires
        0 <= next < files.len(),
        !spec_is_success(status),
    ensures
        spec_step_response(
            StateV::UploadingAssets { release_url, assets_url, files, next },
            status,
            body,
        ) == (StateV::Failed {
            error: PublishErrorV::AssetUpload { path: files[next], status, body },
        }),
{
}

/// A successful upload moves to the next file in order, and the run is done
/// exactly when the last file has been accepted.
pub proof fn lemma_upload_in_order(
    release_url: Seq<char>,
    assets_url: Seq<char>,
    files: Seq<Seq<char>>,
    next: int,
    status: u16,
    body: Seq<char>,
)
    requires
        0 <= next < files.len(),
        spec_is_success(status),
    ensures
        next + 1 < files.len() ==> spec_step_response(
            StateV::UploadingAssets { release_url, assets_url, files, next },
            status,
            body,
        ) == (StateV::UploadingAssets { release_url, assets_url, files, next: next + 1 }),
        next + 1 == files.len() ==> spec_step_response(
            StateV::UploadingAssets { release_url, assets_url, files, next },
            status,
            body,
        ) == (StateV::Done { release_url }),
{
}

} // verus!
