//! Expanding asset patterns into a deduplicated, order-stable list of
//! existing regular files: the matching itself comes from the glob crate,
//! the ordering, filtering and deduplication are this module's own logic.

use vstd::prelude::*;

use crate::errors::{PublishError, PublishErrorV};
use crate::text::{str_eq, views_of};

verus! {

/// One path yielded while walking a pattern's matches: either a path, or the
/// mark of a path that could not be read during the walk.
#[derive(Debug)]
pub enum GlobEntry {
    Found { path: String },
    Unreadable { path: String },
}

/// The mathematical model of one walk entry.
pub ghost enum GlobEntryV {
    Found { path: Seq<char> },
    Unreadable { path: Seq<char> },
}

impl View for GlobEntry {
    type V = GlobEntryV;

    open spec fn view(&self) -> GlobEntryV {
        match self {
            GlobEntry::Found { path } => GlobEntryV::Found { path: path@ },
            GlobEntry::Unreadable { path } => GlobEntryV::Unreadable { path: path@ },
        }
    }
}

/// One examined path together with whether it names an existing regular file.
#[derive(Debug)]
pub struct FileProbe {
    pub path: String,
    pub is_file: bool,
}

/// The mathematical model of an examined path.
pub ghost struct ProbeV {
    pub path: Seq<char>,
    pub is_file: bool,
}

impl View for FileProbe {
    type V = ProbeV;

    open spec fn view(&self) -> ProbeV {
        ProbeV { path: self.path@, is_file: self.is_file }
    }
}

/// The models of a sequence of examined paths, element for element.
pub open spec fn probe_views(ps: Seq<FileProbe>) -> Seq<ProbeV> {
    ps.map_values(|p: FileProbe| p@)
}

/// Whether a pattern text is a valid glob.
pub uninterp spec fn glob_pattern_ok(p: Seq<char>) -> bool;

/// Relies on glob::glob: it returns Err exactly when the pattern text is not
/// a valid glob (the walk has not started then), and otherwise yields the
/// matched paths in order, marking each path the walk could not read. Which
/// paths come back depends on the file system at the moment of the call, so
/// nothing more is promised of the list.
#[verifier::external_body]
fn glob_matches(pattern: &str) -> (r: Result<Vec<GlobEntry>, ()>)
    ensures
        r is Ok <==> glob_pattern_ok(pattern@),
{
    match glob::glob(pattern) {
        Err(_) => Err(()),
        Ok(paths) => Ok(
            paths.map(
                |entry| match entry {
                    Ok(p) => GlobEntry::Found { path: p.to_string_lossy().into_owned() },
                    Err(e) => GlobEntry::Unreadable { path: e.path().to_string_lossy().into_owned() },
                },
            ).collect(),
        ),
    }
}

/// Relies on std::path::Path::is_file: whether the path names an existing
/// regular file; the answer depends on the file system at the moment of the
/// call, so nothing is promised of it.
#[verifier::external_body]
fn path_is_file(path: &str) -> bool {
    std::path::Path::new(path).is_file()
}

/// One collection step: a path that names a regular file and is not yet in
/// the list is appended; every other probe leaves the list unchanged.
pub open spec fn spec_collect_one(acc: Seq<Seq<char>>, e: ProbeV) -> Seq<Seq<char>> {
    if e.is_file && !acc.contains(e.path) {
        acc.push(e.path)
    } else {
        acc
    }
}

/// Collecting a whole sequence of probes, in order, into an accumulator.
pub open spec fn spec_collect(entries: Seq<ProbeV>, acc: Seq<Seq<char>>) -> Seq<Seq<char>>
    decreases entries.len(),
{
    if entries.len() == 0 {
        acc
    } else {
        spec_collect(entries.drop_first(), spec_collect_one(acc, entries[0]))
    }
}

/// No path occurs twice.
pub open spec fn spec_unique(ss: Seq<Seq<char>>) -> bool {
    forall|i: int, j: int| 0 <= i < j < ss.len() ==> ss[i] != ss[j]
}

pub proof fn lemma_collect_snoc(entries: Seq<ProbeV>, e: ProbeV, acc: Seq<Seq<char>>)
    ensures
        spec_collect(entries.push(e), acc) == spec_collect_one(spec_collect(entries, acc), e),
    decreases entries.len(),
{
    if entries.len() == 0 {
        assert(entries.push(e)[0] == e);
        assert(entries.push(e).drop_first() =~= Seq::<ProbeV>::empty());
        assert(spec_collect(entries.push(e), acc) == spec_collect(
            Seq::<ProbeV>::empty(),
            spec_collect_one(acc, e),
        ));
        assert(spec_collect(Seq::<ProbeV>::empty(), spec_collect_one(acc, e)) == spec_collect_one(
            acc,
            e,
        ));
        assert(spec_collect(entries, acc) == acc);
    } else {
        assert(entries.push(e)[0] == entries[0]);
        assert(entries.push(e).drop_first() =~= entries.drop_first().push(e));
        lemma_collect_snoc(entries.drop_first(), e, spec_collect_one(acc, entries[0]));
        assert(spec_collect(entries.push(e), acc) == spec_collect(
            entries.drop_first().push(e),
            spec_collect_one(acc, entries[0]),
        ));
        assert(spec_collect(entries, acc) == spec_collect(
            entries.drop_first(),
            spec_collect_one(acc, entries[0]),
        ));
    }
}

/// What the collected list holds: exactly the accumulator's paths and the
/// probed paths that name regular files.
pub proof fn lemma_collect_membership(entries: Seq<ProbeV>, acc: Seq<Seq<char>>, x: Seq<char>)
    ensures
        spec_collect(entries, acc).contains(x) <==> (acc.contains(x) || exists|i: int|
            0 <= i < entries.len() && entries[i].is_file && entries[i].path == x),
    decreases entries.len(),
{
    if entries.len() == 0 {
    } else {
        let e0 = entries[0];
        let acc2 = spec_collect_one(acc, e0);
        let rest = entries.drop_first();
        lemma_collect_membership(rest, acc2, x);
        assert(acc2.contains(x) <==> (acc.contains(x) || (e0.is_file && e0.path == x))) by {
            if e0.is_file && !acc.contains(e0.path) {
                assert(acc.push(e0.path)[acc.len() as int] == e0.path);
                if acc.contains(x) {
                    let i = choose|i: int| 0 <= i < acc.len() && acc[i] == x;
                    assert(acc.push(e0.path)[i] == x);
                }
                if acc2.contains(x) {
                    let i = choose|i: int| 0 <= i < acc2.len() && acc2[i] == x;
                    if i < acc.len() {
                        assert(acc[i] == x);
                    }
                }
            }
        }
        assert((exists|i: int| 0 <= i < rest.len() && rest[i].is_file && rest[i].path == x)
            <==> (exists|i: int|
            1 <= i < entries.len() && entries[i].is_file && entries[i].path == x)) by {
            if exists|i: int| 0 <= i < rest.len() && rest[i].is_file && rest[i].path == x {
                let i = choose|i: int| 0 <= i < rest.len() && rest[i].is_file && rest[i].path == x;
                assert(entries[i + 1].is_file && entries[i + 1].path == x);
            }
            if exists|i: int| 1 <= i < entries.len() && entries[i].is_file && entries[i].path == x {
                let i = choose|i: int|
                    1 <= i < entries.len() && entries[i].is_file && entries[i].path == x;
                assert(rest[i - 1].is_file && rest[i - 1].path == x);
            }
        }
    }
}

/// Collection never produces a duplicate path.
pub proof fn lemma_collect_unique(entries: Seq<ProbeV>, acc: Seq<Seq<char>>)
    requires
        spec_unique(acc),
    ensures
        spec_unique(spec_collect(entries, acc)),
    decreases entries.len(),
{
    if entries.len() == 0 {
    } else {
        let e0 = entries[0];
        let acc2 = spec_collect_one(acc, e0);
        assert(spec_unique(acc2)) by {
            if e0.is_file && !acc.contains(e0.path) {
                let a2 = acc.push(e0.path);
                assert forall|i: int, j: int| 0 <= i < j < a2.len() implies a2[i] != a2[j] by {
                    if j == acc.len() {
                        if a2[i] == e0.path {
                            assert(acc[i] == e0.path);
                            assert(acc.contains(e0.path));
                        }
                    }
                }
            }
        }
        lemma_collect_unique(entries.drop_first(), acc2);
    }
}

/// Collecting distributes over concatenation: the second run continues where
/// the first stopped.
pub proof fn lemma_collect_append(e1: Seq<ProbeV>, e2: Seq<ProbeV>, acc: Seq<Seq<char>>)
    ensures
        spec_collect(e1 + e2, acc) == spec_collect(e2, spec_collect(e1, acc)),
    decreases e1.len(),
{
    if e1.len() == 0 {
        assert(e1 + e2 =~= e2);
    } else {
        assert((e1 + e2)[0] == e1[0]);
        assert((e1 + e2).drop_first() =~= e1.drop_first() + e2);
        lemma_collect_append(e1.drop_first(), e2, spec_collect_one(acc, e1[0]));
    }
}

/// A pattern that matches nothing contributes nothing: collecting it leaves
/// the list exactly as it was.
pub proof fn lemma_empty_contribution(entries: Seq<ProbeV>, acc: Seq<Seq<char>>)
    ensures
        spec_collect(entries + Seq::<ProbeV>::empty(), acc) == spec_collect(entries, acc),
{
    lemma_collect_append(entries, Seq::<ProbeV>::empty(), acc);
}

/// Paths taken as probes of existing regular files.
pub open spec fn file_probes(paths: Seq<Seq<char>>) -> Seq<ProbeV> {
    paths.map_values(|p: Seq<char>| ProbeV { path: p, is_file: true })
}

proof fn lemma_collect_files_appends(ps: Seq<Seq<char>>, acc: Seq<Seq<char>>)
    requires
        spec_unique(acc + ps),
    ensures
        spec_collect(file_probes(ps), acc) == acc + ps,
    decreases ps.len(),
{
    if ps.len() == 0 {
        assert(acc + ps =~= acc);
        assert(file_probes(ps).len() == 0);
    } else {
        let p = ps[0];
        assert(file_probes(ps)[0] == (ProbeV { path: p, is_file: true }));
        assert(!acc.contains(p)) by {
            if acc.contains(p) {
                let i = choose|i: int| 0 <= i < acc.len() && acc[i] == p;
                assert((acc + ps)[i] == p);
                assert((acc + ps)[acc.len() as int] == p);
            }
        }
        assert(file_probes(ps).drop_first() =~= file_probes(ps.drop_first()));
        assert(acc.push(p) + ps.drop_first() =~= acc + ps);
        lemma_collect_files_appends(ps.drop_first(), acc.push(p));
        assert(acc.push(p) + ps.drop_first() =~= acc + ps);
    }
}

/// Expansion is idempotent: probing the collected paths again, each an
/// existing regular file, collects exactly the same list.
pub proof fn lemma_collect_idempotent(entries: Seq<ProbeV>)
    ensures
        spec_collect(file_probes(spec_collect(entries, Seq::<Seq<char>>::empty())), Seq::<
            Seq<char>,
        >::empty()) == spec_collect(entries, Seq::<Seq<char>>::empty()),
{
    let r = spec_collect(entries, Seq::<Seq<char>>::empty());
    lemma_collect_unique(entries, Seq::<Seq<char>>::empty());
    assert(Seq::<Seq<char>>::empty() + r =~= r);
    lemma_collect_files_appends(r, Seq::<Seq<char>>::empty());
}

/// Whether a list of strings already holds the given text.
pub fn vec_contains_str(v: &Vec<String>, s: &str) -> (r: bool)
    ensures
        r == views_of(v@).contains(s@),
{
    let mut k: usize = 0;
    while k < v.len()
        invariant
            k <= v@.len(),
            forall|m: int| 0 <= m < k ==> v@[m]@ != s@,
        decreases v@.len() - k,
    {
        if str_eq(v[k].as_str(), s) {
            proof {
                assert(views_of(v@)[k as int] == s@);
            }
            return true;
        }
        k += 1;
    }
    proof {
        if views_of(v@).contains(s@) {
            let m = choose|m: int| 0 <= m < views_of(v@).len() && views_of(v@)[m] == s@;
            assert(v@[m]@ == s@);
        }
    }
    false
}

/// Apply one probe to the asset list: append the path when it names a
/// regular file not yet listed.
pub fn add_probe(assets: &mut Vec<String>, path: String, is_file: bool)
    ensures
        views_of(final(assets)@) == spec_collect_one(
            views_of(old(assets)@),
            ProbeV { path: path@, is_file },
        ),
{
    if is_file && !vec_contains_str(assets, path.as_str()) {
        assets.push(path);
        proof {
            assert(views_of(assets@) =~= views_of(old(assets)@).push(path@));
        }
    }
}

/// Collect probed paths into the deduplicated, order-stable list of regular
/// files.
pub fn collect_probes(probes: &Vec<FileProbe>) -> (r: Vec<String>)
    ensures
        views_of(r@) == spec_collect(probe_views(probes@), Seq::<Seq<char>>::empty()),
        spec_unique(views_of(r@)),
{
    let mut assets: Vec<String> = Vec::new();
    let mut k: usize = 0;
    proof {
        assert(probe_views(probes@).subrange(0, 0) =~= Seq::<ProbeV>::empty());
        assert(views_of(assets@) =~= Seq::<Seq<char>>::empty());
    }
    while k < probes.len()
        invariant
            k <= probes@.len(),
            views_of(assets@) == spec_collect(
                probe_views(probes@).subrange(0, k as int),
                Seq::<Seq<char>>::empty(),
            ),
        decreases probes@.len() - k,
    {
        let p = &probes[k];
        add_probe(&mut assets, p.path.clone(), p.is_file);
        proof {
            let pv = probe_views(probes@);
            assert(pv.subrange(0, k + 1) =~= pv.subrange(0, k as int).push(pv[k as int]));
            lemma_collect_snoc(pv.subrange(0, k as int), pv[k as int], Seq::<Seq<char>>::empty());
            assert(pv[k as int] == (ProbeV { path: probes@[k as int].path@, is_file: probes@[k as int].is_file }));
        }
        k += 1;
    }
    proof {
        assert(probe_views(probes@).subrange(0, probes@.len() as int) =~= probe_views(probes@));
        lemma_collect_unique(probe_views(probes@), Seq::<Seq<char>>::empty());
    }
    assets
}

/// Read one pattern's walk entries: the paths of every match, in order, or,
/// at the first entry the walk could not read, the fatal error naming that
/// path -- an unreadable match is never silently skipped.
pub fn scan_entries(entries: &Vec<GlobEntry>) -> (r: Result<Vec<String>, PublishError>)
    ensures
        r is Err <==> exists|i: int| 0 <= i < entries@.len() && (#[trigger] entries@[i])
            is Unreadable,
        r matches Ok(paths) ==> paths@.len() == entries@.len() && (forall|i: int|
            0 <= i < entries@.len() ==> (#[trigger] paths@[i]@) == entries@[i]->Found_path@),
        r matches Err(e) ==> e@ is AssetRead,
        r matches Err(e) ==> (e@ matches PublishErrorV::AssetRead { path } ==> exists|i: int|
            0 <= i < entries@.len() && (#[trigger] entries@[i]@) == (GlobEntryV::Unreadable {
                path,
            }) && (forall|j: int| 0 <= j < i ==> (#[trigger] entries@[j]) is Found)),
{
    let mut paths: Vec<String> = Vec::new();
    let mut ei: usize = 0;
    while ei < entries.len()
        invariant
            ei <= entries@.len(),
            paths@.len() == ei,
            forall|i: int| 0 <= i < ei ==> (#[trigger] entries@[i]) is Found,
            forall|i: int| 0 <= i < ei ==> (#[trigger] paths@[i]@) == entries@[i]->Found_path@,
        decreases entries@.len() - ei,
    {
        match &entries[ei] {
            GlobEntry::Unreadable { path } => {
                let offending = path.clone();
                proof {
                    assert(entries@[ei as int]@ == (GlobEntryV::Unreadable { path: offending@ }));
                }
                return Err(PublishError::AssetRead { path: offending });
            },
            GlobEntry::Found { path } => {
                paths.push(path.clone());
                proof {
                    assert(entries@[ei as int] is Found);
                    assert(paths@[ei as int]@ == entries@[ei as int]->Found_path@);
                }
            },
        }
        ei += 1;
    }
    Ok(paths)
}

/// Expand the configured patterns, in order, into the deduplicated list of
/// existing regular files they match: an invalid pattern is a fatal error
/// naming it, an unreadable matched path is a fatal error naming it (through
/// `scan_entries`), and a pattern matching nothing contributes nothing and is
/// no error -- in particular, an empty pattern list succeeds with no files.
pub fn expand_patterns(patterns: &Vec<String>) -> (r: Result<Vec<String>, PublishError>)
    ensures
        patterns@.len() == 0 ==> (r matches Ok(files) && files@.len() == 0),
        r matches Ok(files) ==> spec_unique(views_of(files@)),
        r matches Ok(files) ==> (forall|i: int|
            0 <= i < patterns@.len() ==> glob_pattern_ok(#[trigger] patterns@[i]@)),
        r matches Err(e) ==> (e@ is Glob || e@ is AssetRead),
        r matches Err(e) ==> (e@ matches PublishErrorV::Glob { pattern } ==> exists|i: int|
            0 <= i < patterns@.len() && #[trigger] patterns@[i]@ == pattern && !glob_pattern_ok(
                pattern,
            ) && (forall|j: int| 0 <= j < i ==> glob_pattern_ok(#[trigger] patterns@[j]@))),
        (forall|i: int| 0 <= i < patterns@.len() ==> glob_pattern_ok(#[trigger] patterns@[i]@))
            ==> !(r matches Err(e) && e@ is Glob),
{
    let mut assets: Vec<String> = Vec::new();
    let ghost mut probed: Seq<ProbeV> = Seq::<ProbeV>::empty();
    proof {
        assert(views_of(assets@) =~= spec_collect(probed, Seq::<Seq<char>>::empty()));
    }
    let mut pi: usize = 0;
    while pi < patterns.len()
        invariant
            pi <= patterns@.len(),
            views_of(assets@) == spec_collect(probed, Seq::<Seq<char>>::empty()),
            patterns@.len() == 0 ==> assets@.len() == 0,
            forall|k: int| 0 <= k < pi ==> glob_pattern_ok(#[trigger] patterns@[k]@),
        decreases patterns@.len() - pi,
    {
        let entries = match glob_matches(patterns[pi].as_str()) {
            Err(_) => {
                let offending = patterns[pi].clone();
                proof {
                    assert((pi as int) < patterns@.len() && patterns@[pi as int]@ == offending@
                        && !glob_pattern_ok(patterns@[pi as int]@));
                }
                return Err(PublishError::Glob { pattern: offending });
            },
            Ok(es) => es,
        };
        let found = match scan_entries(&entries) {
            Err(e) => {
                return Err(e);
            },
            Ok(paths) => paths,
        };
        let mut fi: usize = 0;
        while fi < found.len()
            invariant
                fi <= found@.len(),
                views_of(assets@) == spec_collect(probed, Seq::<Seq<char>>::empty()),
            decreases found@.len() - fi,
        {
            let path = &found[fi];
            let is_f = path_is_file(path.as_str());
            add_probe(&mut assets, path.clone(), is_f);
            proof {
                lemma_collect_snoc(
                    probed,
                    ProbeV { path: path@, is_file: is_f },
                    Seq::<Seq<char>>::empty(),
                );
                probed = probed.push(ProbeV { path: path@, is_file: is_f });
            }
            fi += 1;
        }
        pi += 1;
    }
    proof {
        lemma_collect_unique(probed, Seq::<Seq<char>>::empty());
    }
    Ok(assets)
}

} // verus!
