use gitea_release::errors::PublishError;
use gitea_release::globs::{collect_probes, expand_patterns, scan_entries, FileProbe, GlobEntry};
use gitea_release::text::split_commas;

fn probe(path: &str, is_file: bool) -> FileProbe {
    FileProbe {
        path: path.to_string(),
        is_file,
    }
}

#[test]
fn split_commas_keeps_order_and_empty_pieces() {
    assert_eq!(split_commas("a,b"), vec!["a".to_string(), "b".to_string()]);
    assert_eq!(split_commas(""), vec![String::new()]);
    assert_eq!(
        split_commas("a,,b,"),
        vec![
            "a".to_string(),
            String::new(),
            "b".to_string(),
            String::new()
        ]
    );
    assert_eq!(split_commas("one"), vec!["one".to_string()]);
}

#[test]
fn collect_keeps_pattern_order_then_match_order() {
    let probes = vec![
        probe("dist/b.tar.gz", true),
        probe("dist/a.tar.gz", true),
        probe("checksums.txt", true),
    ];
    assert_eq!(
        collect_probes(&probes),
        vec![
            "dist/b.tar.gz".to_string(),
            "dist/a.tar.gz".to_string(),
            "checksums.txt".to_string()
        ]
    );
}

#[test]
fn collect_removes_duplicates_by_path() {
    let probes = vec![
        probe("a.bin", true),
        probe("b.bin", true),
        probe("a.bin", true),
        probe("b.bin", true),
    ];
    assert_eq!(
        collect_probes(&probes),
        vec!["a.bin".to_string(), "b.bin".to_string()]
    );
}

#[test]
fn collect_excludes_directories_silently() {
    let probes = vec![
        probe("dist", false),
        probe("dist/a.bin", true),
        probe("docs", false),
    ];
    assert_eq!(collect_probes(&probes), vec!["dist/a.bin".to_string()]);
}

#[test]
fn collect_of_nothing_is_empty() {
    let probes: Vec<FileProbe> = vec![];
    assert_eq!(collect_probes(&probes), Vec::<String>::new());
}

#[test]
fn collecting_twice_gives_the_same_list() {
    let probes = vec![
        probe("b.bin", true),
        probe("a.bin", true),
        probe("b.bin", true),
        probe("dir", false),
    ];
    let first = collect_probes(&probes);
    let again = collect_probes(&probes);
    assert_eq!(first, again);
    // Probing the collected list once more changes nothing.
    let reprobed: Vec<FileProbe> = first.iter().map(|p| probe(p, true)).collect();
    assert_eq!(collect_probes(&reprobed), first);
}

#[test]
fn scanning_all_found_entries_yields_their_paths_in_order() {
    let entries = vec![
        GlobEntry::Found {
            path: "dist/a.tar.gz".to_string(),
        },
        GlobEntry::Found {
            path: "dist/b.tar.gz".to_string(),
        },
    ];
    assert_eq!(
        scan_entries(&entries).unwrap(),
        vec!["dist/a.tar.gz".to_string(), "dist/b.tar.gz".to_string()]
    );
    assert_eq!(scan_entries(&Vec::new()).unwrap(), Vec::<String>::new());
}

#[test]
fn scanning_stops_at_the_first_unreadable_entry() {
    let entries = vec![
        GlobEntry::Found {
            path: "a.bin".to_string(),
        },
        GlobEntry::Unreadable {
            path: "dist/locked.bin".to_string(),
        },
        GlobEntry::Unreadable {
            path: "dist/later.bin".to_string(),
        },
    ];
    match scan_entries(&entries) {
        Err(PublishError::AssetRead { path }) => assert_eq!(path, "dist/locked.bin"),
        other => panic!("expected the unreadable path to be fatal, got {:?}", other),
    }
}

#[test]
fn empty_pattern_list_expands_to_no_files() {
    let patterns: Vec<String> = vec![];
    assert_eq!(expand_patterns(&patterns).unwrap(), Vec::<String>::new());
}

#[test]
fn invalid_pattern_is_a_fatal_glob_error() {
    let patterns = vec!["[".to_string()];
    match expand_patterns(&patterns) {
        Err(PublishError::Glob { pattern }) => assert_eq!(pattern, "["),
        other => panic!("expected the pattern to be rejected, got {:?}", other),
    }
}

#[test]
fn matched_directories_are_dropped_from_the_expansion() {
    // `.` always exists and is a directory, so the pattern matches and the
    // match is silently excluded, however often it is named.
    let patterns = vec![".".to_string(), ".".to_string()];
    let files = expand_patterns(&patterns).unwrap();
    assert!(files.is_empty());
    let again = expand_patterns(&patterns).unwrap();
    assert_eq!(files, again);
}

#[test]
fn pattern_matching_nothing_contributes_nothing() {
    let patterns = vec!["no_such_directory_anywhere/*.bin".to_string()];
    match expand_patterns(&patterns) {
        Ok(files) => assert!(files.is_empty()),
        other => panic!("expected an empty expansion, got {:?}", other),
    }
}
