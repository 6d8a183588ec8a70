use transfer_engine::files::{
    collect_rows, get_drives, get_home_dir, home_dir_answer, list_files, make_entry,
    open_file_in_explorer, reveal_command, reveal_failure_message, sort_entries, EntryFacts,
    EntryMetadata, EntryRead, FileEntry, PathProbe, PathQueryFailed,
};
use transfer_engine::platform::Platform;
use transfer_engine::supervisor::CommandLine;

const DIRECTORY: PathProbe = PathProbe { exists: true, is_dir: true };

fn file(name: &str) -> EntryRead {
    EntryRead::Entry(EntryFacts {
        name: name.to_string(),
        path: format!("/base/{}", name),
        metadata: Some(EntryMetadata { is_dir: false, len: 10, modified_secs: Some(0) }),
    })
}

fn dir(name: &str) -> EntryRead {
    EntryRead::Entry(EntryFacts {
        name: name.to_string(),
        path: format!("/base/{}", name),
        metadata: Some(EntryMetadata { is_dir: true, len: 4096, modified_secs: Some(0) }),
    })
}

fn names(rows: &[FileEntry]) -> Vec<String> {
    rows.iter().map(|row| row.name.clone()).collect()
}

fn listed(reads: Vec<EntryRead>) -> Vec<FileEntry> {
    match list_files("/base".to_string(), DIRECTORY, Ok(reads)) {
        Ok(rows) => rows,
        Err(failure) => panic!("listing failed: {:?}", failure),
    }
}

fn command(program: &str, args: &[&str]) -> CommandLine {
    CommandLine {
        program: program.to_string(),
        args: args.iter().map(|arg| arg.to_string()).collect(),
    }
}

#[test]
fn listing_puts_directories_first_then_names_without_case() {
    let rows = listed(vec![file("b.txt"), dir("A"), file("a.txt")]);
    assert_eq!(names(&rows), vec!["A", "a.txt", "b.txt"]);
    assert!(rows[0].is_dir);
    assert!(!rows[1].is_dir);
    assert!(!rows[2].is_dir);
}

#[test]
fn listing_orders_names_by_their_lowercase_form() {
    let rows = listed(vec![file("b"), file("C"), file("a"), file("D")]);
    assert_eq!(names(&rows), vec!["a", "b", "C", "D"]);
}

#[test]
fn listing_orders_non_ascii_names_by_their_lowercase_form() {
    let rows = listed(vec![file("\u{c9}cole"), file("\u{e9}cole2"), file("\u{e9}cola")]);
    assert_eq!(names(&rows), vec!["\u{e9}cola", "\u{c9}cole", "\u{e9}cole2"]);
}

#[test]
fn listing_keeps_ties_in_reading_order() {
    let rows = listed(vec![file("Readme"), file("README"), file("readme")]);
    assert_eq!(names(&rows), vec!["Readme", "README", "readme"]);
    let rows = listed(vec![file("readme"), file("README"), file("Readme")]);
    assert_eq!(names(&rows), vec!["readme", "README", "Readme"]);
}

#[test]
fn listing_sorts_directories_among_themselves() {
    let rows = listed(vec![file("a"), dir("z"), dir("B"), file("0"), dir("c")]);
    assert_eq!(names(&rows), vec!["B", "c", "z", "0", "a"]);
}

#[test]
fn listing_of_an_empty_directory_is_empty() {
    assert!(listed(vec![]).is_empty());
}

#[test]
fn listing_keeps_every_readable_entry() {
    let rows = listed(vec![file("c"), file("a"), file("b"), file("a")]);
    assert_eq!(names(&rows), vec!["a", "a", "b", "c"]);
}

#[test]
fn listing_skips_unreadable_entries() {
    let rows = listed(vec![
        file("b.txt"),
        EntryRead::Unreadable("permission denied".to_string()),
        file("a.txt"),
    ]);
    assert_eq!(names(&rows), vec!["a.txt", "b.txt"]);
}

#[test]
fn listing_of_a_missing_path_fails() {
    let probe = PathProbe { exists: false, is_dir: false };
    let result = list_files("/nowhere".to_string(), probe, Ok(vec![file("a")]));
    assert_eq!(result, Err(PathQueryFailed::PathNotFound("/nowhere".to_string())));
}

#[test]
fn listing_of_a_file_fails() {
    let probe = PathProbe { exists: true, is_dir: false };
    let result = list_files("/etc/hosts".to_string(), probe, Ok(vec![]));
    assert_eq!(result, Err(PathQueryFailed::NotADirectory("/etc/hosts".to_string())));
}

#[test]
fn missing_path_is_reported_before_anything_else() {
    let probe = PathProbe { exists: false, is_dir: true };
    let result = list_files("/gone".to_string(), probe, Err("denied".to_string()));
    assert_eq!(result, Err(PathQueryFailed::PathNotFound("/gone".to_string())));
}

#[test]
fn listing_of_an_unreadable_directory_fails() {
    let result = list_files("/root".to_string(), DIRECTORY, Err("permission denied".to_string()));
    assert_eq!(result, Err(PathQueryFailed::ReadFailed("permission denied".to_string())));
}

#[test]
fn query_failure_sentences() {
    assert_eq!(
        PathQueryFailed::PathNotFound("/nowhere".to_string()).message(),
        "Path does not exist: /nowhere"
    );
    assert_eq!(
        PathQueryFailed::NotADirectory("/etc/hosts".to_string()).message(),
        "Path is not a directory: /etc/hosts"
    );
    assert_eq!(
        PathQueryFailed::ReadFailed("permission denied".to_string()).message(),
        "Failed to read directory: permission denied"
    );
    assert_eq!(PathQueryFailed::NoHomeDirectory.message(), "Failed to get home directory");
}

#[test]
fn row_carries_the_facts_of_the_entry() {
    let row = make_entry(EntryFacts {
        name: "notes.txt".to_string(),
        path: "/home/u/notes.txt".to_string(),
        metadata: Some(EntryMetadata {
            is_dir: false,
            len: 1234,
            modified_secs: Some(1_431_648_000),
        }),
    });
    assert_eq!(
        row,
        FileEntry {
            name: "notes.txt".to_string(),
            path: "/home/u/notes.txt".to_string(),
            is_dir: false,
            size: 1234,
            modified: Some("2015-05-15 00:00:00".to_string()),
        }
    );
}

#[test]
fn row_without_metadata_is_an_empty_file_of_unknown_age() {
    let row = make_entry(EntryFacts {
        name: "ghost".to_string(),
        path: "/tmp/ghost".to_string(),
        metadata: None,
    });
    assert_eq!(
        row,
        FileEntry {
            name: "ghost".to_string(),
            path: "/tmp/ghost".to_string(),
            is_dir: false,
            size: 0,
            modified: None,
        }
    );
}

#[test]
fn row_without_modification_time_has_no_modified_text() {
    let row = make_entry(EntryFacts {
        name: "d".to_string(),
        path: "/d".to_string(),
        metadata: Some(EntryMetadata { is_dir: true, len: 0, modified_secs: None }),
    });
    assert!(row.is_dir);
    assert_eq!(row.modified, None);
}

fn modified(secs: u64) -> Option<String> {
    make_entry(EntryFacts {
        name: "f".to_string(),
        path: "/f".to_string(),
        metadata: Some(EntryMetadata { is_dir: false, len: 0, modified_secs: Some(secs) }),
    })
    .modified
}

#[test]
fn modified_text_is_the_utc_date_and_time() {
    assert_eq!(modified(0), Some("1970-01-01 00:00:00".to_string()));
    assert_eq!(modified(1), Some("1970-01-01 00:00:01".to_string()));
    assert_eq!(modified(86_399), Some("1970-01-01 23:59:59".to_string()));
    assert_eq!(modified(951_782_400), Some("2000-02-29 00:00:00".to_string()));
    assert_eq!(modified(1_700_000_000), Some("2023-11-14 22:13:20".to_string()));
}

#[test]
fn modified_text_is_empty_where_the_calendar_ends() {
    assert_eq!(modified(i64::MAX as u64), Some(String::new()));
}

#[test]
fn seconds_beyond_the_signed_range_have_no_calendar_text() {
    assert_eq!(modified(u64::MAX), Some(String::new()));
    assert_eq!(modified(1u64 << 63), Some(String::new()));
    assert_eq!(modified((1u64 << 63) + 1_700_000_000), Some(String::new()));
}

#[test]
fn collect_rows_keeps_the_reading_order() {
    let rows = collect_rows(vec![
        file("b"),
        EntryRead::Unreadable("x".to_string()),
        dir("a"),
        file("c"),
    ]);
    assert_eq!(names(&rows), vec!["b", "a", "c"]);
}

#[test]
fn sort_entries_returns_the_same_rows() {
    let rows = collect_rows(vec![file("b"), dir("a"), file("c")]);
    let sorted = sort_entries(rows);
    assert_eq!(names(&sorted), vec!["a", "b", "c"]);
    assert_eq!(sorted[0].size, 4096);
    assert_eq!(sorted[1].path, "/base/b");
}

#[test]
fn home_directory_answer() {
    assert_eq!(home_dir_answer(Some("/home/alice".to_string())), Ok("/home/alice".to_string()));
    assert_eq!(home_dir_answer(None), Err(PathQueryFailed::NoHomeDirectory));
}

#[test]
fn home_directory_is_a_path_or_the_one_failure() {
    match get_home_dir() {
        Ok(_) => {}
        Err(failure) => assert_eq!(failure, PathQueryFailed::NoHomeDirectory),
    }
}

#[test]
fn drives_follow_the_bits_of_the_mask() {
    assert_eq!(get_drives(Platform::Windows, 0), Ok(vec![]));
    assert_eq!(get_drives(Platform::Windows, 0b1), Ok(vec!["A:/".to_string()]));
    assert_eq!(
        get_drives(Platform::Windows, 0b1100),
        Ok(vec!["C:/".to_string(), "D:/".to_string()])
    );
    assert_eq!(get_drives(Platform::Windows, 1 << 25), Ok(vec!["Z:/".to_string()]));
}

#[test]
fn drives_beyond_the_alphabet_are_ignored() {
    assert_eq!(get_drives(Platform::Windows, 1 << 26), Ok(vec![]));
    assert_eq!(get_drives(Platform::Windows, 0xfc00_0004), Ok(vec!["C:/".to_string()]));
}

#[test]
fn every_drive_letter_present() {
    let all = get_drives(Platform::Windows, u32::MAX).unwrap();
    assert_eq!(all.len(), 26);
    for (i, root) in all.iter().enumerate() {
        assert_eq!(root, &format!("{}:/", (b'A' + i as u8) as char));
    }
}

#[test]
fn other_platforms_have_the_single_root() {
    for platform in [Platform::Linux, Platform::MacOs, Platform::Other] {
        assert_eq!(get_drives(platform, 0), Ok(vec!["/".to_string()]));
        assert_eq!(get_drives(platform, u32::MAX), Ok(vec!["/".to_string()]));
    }
}

#[test]
fn reveal_on_windows_selects_the_file() {
    assert_eq!(
        open_file_in_explorer(Platform::Windows, "C:/Users/a/file.txt".to_string()),
        Some(command("explorer", &["/select,", "C:/Users/a/file.txt"]))
    );
}

#[test]
fn reveal_on_macos_selects_the_file() {
    assert_eq!(
        open_file_in_explorer(Platform::MacOs, "/Users/a/file.txt".to_string()),
        Some(command("open", &["-R", "/Users/a/file.txt"]))
    );
}

#[test]
fn reveal_on_linux_opens_the_holding_directory() {
    assert_eq!(
        reveal_command(
            Platform::Linux,
            "/home/a/file.txt".to_string(),
            Some("/home/a".to_string())
        ),
        Some(command("xdg-open", &["/home/a"]))
    );
    assert_eq!(
        reveal_command(Platform::Linux, "/".to_string(), None),
        Some(command("xdg-open", &["/"]))
    );
}

#[test]
fn reveal_on_linux_works_out_the_holding_directory() {
    let revealed = open_file_in_explorer(Platform::Linux, "/home/a/file.txt".to_string());
    match revealed {
        Some(line) => {
            assert_eq!(line.program, "xdg-open");
            assert_eq!(line.args.len(), 1);
            assert_ne!(line.args[0], "/home/a/file.txt");
        }
        None => panic!("no command for Linux"),
    }
}

#[test]
fn reveal_ignores_the_parent_where_the_file_is_selected() {
    assert_eq!(
        reveal_command(Platform::Windows, "C:/x".to_string(), Some("C:/".to_string())),
        Some(command("explorer", &["/select,", "C:/x"]))
    );
    assert_eq!(
        reveal_command(Platform::MacOs, "/x".to_string(), Some("/".to_string())),
        Some(command("open", &["-R", "/x"]))
    );
}

#[test]
fn reveal_on_an_unknown_platform_runs_nothing() {
    assert_eq!(open_file_in_explorer(Platform::Other, "/x".to_string()), None);
    assert_eq!(reveal_command(Platform::Other, "/x".to_string(), Some("/".to_string())), None);
}

#[test]
fn reveal_failure_sentences() {
    assert_eq!(
        reveal_failure_message(Platform::Windows, "not found"),
        "Failed to open explorer: not found"
    );
    assert_eq!(
        reveal_failure_message(Platform::MacOs, "not found"),
        "Failed to open finder: not found"
    );
    assert_eq!(
        reveal_failure_message(Platform::Linux, "not found"),
        "Failed to open file manager: not found"
    );
    assert_eq!(
        reveal_failure_message(Platform::Other, "not found"),
        "Failed to open file manager: not found"
    );
}
