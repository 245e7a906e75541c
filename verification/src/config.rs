//! Configuration resolution: named raw inputs become a validated
//! `PublishConfig`, or the first offending input is reported.

use vstd::prelude::*;
use vstd::string::{StrSliceExecFns, StringExecFns};

use crate::errors::{ConfigError, ConfigErrorV, ConfigField};
use crate::text::{
    has_prefix, spec_has_prefix, spec_has_suffix, spec_split_commas, spec_trim, spec_trim_slashes,
    split_commas, str_eq, strip_suffix, trim, trim_trailing_slashes, views_of,
};

verus! {

/// A referenced text file: its path and, when it could be read, its contents.
#[derive(Debug)]
pub struct SourceFile {
    pub path: String,
    pub contents: Option<String>,
}

/// The mathematical model of a referenced text file.
pub ghost struct SourceFileV {
    pub path: Seq<char>,
    pub contents: Option<Seq<char>>,
}

impl View for SourceFile {
    type V = SourceFileV;

    open spec fn view(&self) -> SourceFileV {
        SourceFileV {
            path: self.path@,
            contents: match self.contents {
                Some(ref c) => Some(c@),
                None => None,
            },
        }
    }
}

/// The raw configuration inputs, exactly as the environment named them.
#[derive(Debug)]
pub struct RawConfig {
    pub tag: Option<String>,
    pub repo_owner: Option<String>,
    pub repo_name: Option<String>,
    pub api_key: Option<String>,
    pub base_url: Option<String>,
    pub repo_link: Option<String>,
    pub name_source: Option<SourceFile>,
    pub body_source: Option<SourceFile>,
    pub draft: Option<String>,
    pub prerelease: Option<String>,
    pub asset_patterns: Option<String>,
}

/// The validated configuration, built once per run and read-only afterwards.
#[derive(Debug)]
pub struct PublishConfig {
    pub tag_name: String,
    pub repo_owner: String,
    pub repo_name: String,
    /// The forge origin, already trimmed of trailing `/`.
    pub base_url: String,
    pub api_key: String,
    pub release_name: Option<String>,
    pub release_body: Option<String>,
    pub is_draft: Option<bool>,
    pub is_prerelease: Option<bool>,
    pub asset_patterns: Option<Vec<String>>,
}

/// The mathematical model of a validated configuration.
pub ghost struct ConfigModel {
    pub tag_name: Seq<char>,
    pub repo_owner: Seq<char>,
    pub repo_name: Seq<char>,
    pub base_url: Seq<char>,
    pub api_key: Seq<char>,
    pub release_name: Option<Seq<char>>,
    pub release_body: Option<Seq<char>>,
    pub is_draft: Option<bool>,
    pub is_prerelease: Option<bool>,
    pub asset_patterns: Option<Seq<Seq<char>>>,
}

impl View for PublishConfig {
    type V = ConfigModel;

    open spec fn view(&self) -> ConfigModel {
        ConfigModel {
            tag_name: self.tag_name@,
            repo_owner: self.repo_owner@,
            repo_name: self.repo_name@,
            base_url: self.base_url@,
            api_key: self.api_key@,
            release_name: match self.release_name {
                Some(ref s) => Some(s@),
                None => None,
            },
            release_body: match self.release_body {
                Some(ref s) => Some(s@),
                None => None,
            },
            is_draft: self.is_draft,
            is_prerelease: self.is_prerelease,
            asset_patterns: match self.asset_patterns {
                Some(ref v) => Some(views_of(v@)),
                None => None,
            },
        }
    }
}

/// The boolean literals accepted for the draft and prerelease inputs:
/// exactly `true` and `false`.
pub open spec fn spec_parse_bool(s: Seq<char>) -> Option<bool> {
    if s == "true"@ {
        Some(true)
    } else if s == "false"@ {
        Some(false)
    } else {
        None
    }
}

/// Parse a boolean literal; anything but `true` or `false` is rejected.
pub fn parse_bool(s: &str) -> (r: Option<bool>)
    ensures
        r == spec_parse_bool(s@),
{
    if str_eq(s, "true") {
        Some(true)
    } else if str_eq(s, "false") {
        Some(false)
    } else {
        None
    }
}

/// The repository coordinates as they appear in URLs: `owner/name`.
pub open spec fn spec_owner_repo(owner: Seq<char>, name: Seq<char>) -> Seq<char> {
    owner + "/"@ + name
}

/// A base URL is usable when it is an HTTP(S) URL with something after the
/// scheme.
pub open spec fn spec_valid_base(s: Seq<char>) -> bool {
    (spec_has_prefix(s, "http://"@) && s.len() > "http://"@.len()) || (spec_has_prefix(
        s,
        "https://"@,
    ) && s.len() > "https://"@.len())
}

pub fn valid_base(s: &str) -> (r: bool)
    ensures
        r == spec_valid_base(s@),
{
    (has_prefix(s, "http://") && s.unicode_len() > "http://".unicode_len()) || (has_prefix(
        s,
        "https://",
    ) && s.unicode_len() > "https://".unicode_len())
}

/// A required input is usable when it is present and non-empty.
pub open spec fn spec_required_ok(v: Option<String>) -> bool {
    v is Some && v->Some_0@.len() > 0
}

/// The base URL before trimming: the explicit value when given, otherwise
/// the repository link with its trailing `owner/name` removed.
pub open spec fn spec_base_candidate(raw: RawConfig) -> Option<Seq<char>> {
    if raw.base_url is Some {
        Some(raw.base_url->Some_0@)
    } else if raw.repo_link is Some && spec_has_suffix(
        raw.repo_link->Some_0@,
        spec_owner_repo(raw.repo_owner->Some_0@, raw.repo_name->Some_0@),
    ) {
        Some(
            raw.repo_link->Some_0@.subrange(
                0,
                raw.repo_link->Some_0@.len() - spec_owner_repo(
                    raw.repo_owner->Some_0@,
                    raw.repo_name->Some_0@,
                ).len(),
            ),
        )
    } else {
        None
    }
}

/// What configuration resolution returns: the model of the validated
/// configuration, or the first offending input in the order the inputs are
/// examined.
pub open spec fn spec_resolve(raw: RawConfig) -> Result<ConfigModel, ConfigErrorV> {
    if !spec_required_ok(raw.tag) {
        Err(ConfigErrorV::MissingField { field: ConfigField::Tag })
    } else if !spec_required_ok(raw.repo_owner) {
        Err(ConfigErrorV::MissingField { field: ConfigField::RepoOwner })
    } else if !spec_required_ok(raw.repo_name) {
        Err(ConfigErrorV::MissingField { field: ConfigField::RepoName })
    } else if raw.api_key is None {
        Err(ConfigErrorV::MissingField { field: ConfigField::ApiKey })
    } else if spec_base_candidate(raw) is None {
        Err(ConfigErrorV::MissingBaseUrl)
    } else {
        let base = spec_trim_slashes(spec_base_candidate(raw)->Some_0);
        if !spec_valid_base(base) {
            Err(ConfigErrorV::InvalidBaseUrl { url: base })
        } else if raw.name_source is Some && raw.name_source->Some_0.contents is None {
            Err(ConfigErrorV::UnreadableFile { path: raw.name_source->Some_0.path@ })
        } else if raw.body_source is Some && raw.body_source->Some_0.contents is None {
            Err(ConfigErrorV::UnreadableFile { path: raw.body_source->Some_0.path@ })
        } else if raw.draft is Some && spec_parse_bool(raw.draft->Some_0@) is None {
            Err(ConfigErrorV::InvalidBool { field: ConfigField::Draft })
        } else if raw.prerelease is Some && spec_parse_bool(raw.prerelease->Some_0@) is None {
            Err(ConfigErrorV::InvalidBool { field: ConfigField::Prerelease })
        } else {
            Ok(
                ConfigModel {
                    tag_name: raw.tag->Some_0@,
                    repo_owner: raw.repo_owner->Some_0@,
                    repo_name: raw.repo_name->Some_0@,
                    base_url: base,
                    api_key: raw.api_key->Some_0@,
                    release_name: match raw.name_source {
                        Some(sf) => Some(spec_trim(sf.contents->Some_0@)),
                        None => None,
                    },
                    release_body: match raw.body_source {
                        Some(sf) => Some(spec_trim(sf.contents->Some_0@)),
                        None => None,
                    },
                    is_draft: match raw.draft {
                        Some(s) => spec_parse_bool(s@),
                        None => None,
                    },
                    is_prerelease: match raw.prerelease {
                        Some(s) => spec_parse_bool(s@),
                        None => None,
                    },
                    asset_patterns: match raw.asset_patterns {
                        Some(s) => Some(spec_split_commas(s@)),
                        None => None,
                    },
                },
            )
        }
    }
}

/// Resolve the raw inputs into a validated configuration, or report the
/// first offending input.
pub fn resolve_config(raw: RawConfig) -> (r: Result<PublishConfig, ConfigError>)
    ensures
        match r {
            Ok(c) => spec_resolve(raw) == Ok::<ConfigModel, ConfigErrorV>(c@),
            Err(e) => spec_resolve(raw) == Err::<ConfigModel, ConfigErrorV>(e@),
        },
{
    let RawConfig {
        tag,
        repo_owner,
        repo_name,
        api_key,
        base_url,
        repo_link,
        name_source,
        body_source,
        draft,
        prerelease,
        asset_patterns,
    } = raw;
    let tag = match tag {
        None => {
            return Err(ConfigError::MissingField { field: ConfigField::Tag });
        },
        Some(t) => {
            if t.as_str().is_empty() {
                return Err(ConfigError::MissingField { field: ConfigField::Tag });
            }
            t
        },
    };
    let repo_owner = match repo_owner {
        None => {
            return Err(ConfigError::MissingField { field: ConfigField::RepoOwner });
        },
        Some(t) => {
            if t.as_str().is_empty() {
                return Err(ConfigError::MissingField { field: ConfigField::RepoOwner });
            }
            t
        },
    };
    let repo_name = match repo_name {
        None => {
            return Err(ConfigError::MissingField { field: ConfigField::RepoName });
        },
        Some(t) => {
            if t.as_str().is_empty() {
                return Err(ConfigError::MissingField { field: ConfigField::RepoName });
            }
            t
        },
    };
    let api_key = match api_key {
        None => {
            return Err(ConfigError::MissingField { field: ConfigField::ApiKey });
        },
        Some(t) => t,
    };
    let candidate: Option<String> = match base_url {
        Some(b) => Some(b),
        None => match repo_link {
            Some(link) => {
                let mut owner_repo = String::new();
                owner_repo.append(repo_owner.as_str());
                owner_repo.append("/");
                owner_repo.append(repo_name.as_str());
                proof {
                    assert(owner_repo@ =~= spec_owner_repo(repo_owner@, repo_name@));
                }
                strip_suffix(link.as_str(), owner_repo.as_str())
            },
            None => None,
        },
    };
    let candidate = match candidate {
        None => {
            return Err(ConfigError::MissingBaseUrl);
        },
        Some(c) => c,
    };
    let base = trim_trailing_slashes(candidate.as_str());
    if !valid_base(base.as_str()) {
        return Err(ConfigError::InvalidBaseUrl { url: base });
    }
    let release_name: Option<String> = match name_source {
        None => None,
        Some(sf) => match sf.contents {
            None => {
                return Err(ConfigError::UnreadableFile { path: sf.path });
            },
            Some(c) => Some(trim(c.as_str())),
        },
    };
    let release_body: Option<String> = match body_source {
        None => None,
        Some(sf) => match sf.contents {
            None => {
                return Err(ConfigError::UnreadableFile { path: sf.path });
            },
            Some(c) => Some(trim(c.as_str())),
        },
    };
    let is_draft: Option<bool> = match draft {
        None => None,
        Some(s) => match parse_bool(s.as_str()) {
            None => {
                return Err(ConfigError::InvalidBool { field: ConfigField::Draft });
            },
            Some(b) => Some(b),
        },
    };
    let is_prerelease: Option<bool> = match prerelease {
        None => None,
        Some(s) => match parse_bool(s.as_str()) {
            None => {
                return Err(ConfigError::InvalidBool { field: ConfigField::Prerelease });
            },
            Some(b) => Some(b),
        },
    };
    let patterns: Option<Vec<String>> = match asset_patterns {
        None => None,
        Some(s) => {
            let v = split_commas(s.as_str());
            proof {
                assert(views_of(v@) =~= spec_split_commas(s@));
            }
            Some(v)
        },
    };
    let cfg = PublishConfig {
        tag_name: tag,
        repo_owner,
        repo_name,
        base_url: base,
        api_key,
        release_name,
        release_body,
        is_draft,
        is_prerelease,
        asset_patterns: patterns,
    };
    proof {
        assert(spec_resolve(raw) == Ok::<ConfigModel, ConfigErrorV>(cfg@));
    }
    Ok(cfg)
}

/// When the base URL is absent but the repository link carries the
/// repository coordinates as a suffix, the candidate base URL is exactly the
/// link with that suffix removed, and a resolved configuration carries it
/// trimmed of trailing `/`.
pub proof fn lemma_base_url_derivation(raw: RawConfig, origin: Seq<char>)
    requires
        raw.base_url is None,
        raw.repo_link is Some,
        raw.repo_link->Some_0@ == origin + spec_owner_repo(
            raw.repo_owner->Some_0@,
            raw.repo_name->Some_0@,
        ),
    ensures
        spec_base_candidate(raw) == Some(origin),
        spec_resolve(raw) is Ok ==> spec_resolve(raw)->Ok_0.base_url == spec_trim_slashes(origin),
{
    let link = raw.repo_link->Some_0@;
    let suffix = spec_owner_repo(raw.repo_owner->Some_0@, raw.repo_name->Some_0@);
    assert(link.subrange(link.len() - suffix.len(), link.len() as int) =~= suffix);
    assert(spec_has_suffix(link, suffix));
    assert(link.subrange(0, link.len() - suffix.len()) =~= origin);
}

} // verus!
