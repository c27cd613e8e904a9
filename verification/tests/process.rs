use std::collections::HashSet;
use lockin::{LockError, PathNormalizer, ProcessInfo, ProcessMatcher, ProcessQuery};

#[test]
fn process_info_creation_succeeds() {
    let info = ProcessInfo::new(1234, "Firefox.exe", "C:\\Program Files\\Firefox\\firefox.exe");
    assert!(info.is_ok());

    let info = info.unwrap();
    assert_eq!(info.pid, 1234);
    assert_eq!(info.exe_name, "firefox.exe");
    assert_eq!(info.exe_path, "c:\\program files\\firefox\\firefox.exe");
}

#[test]
fn process_info_normalizes_names() {
    let info = ProcessInfo::new(1, "FIREFOX.EXE", "C:\\Firefox.exe").unwrap();
    assert_eq!(info.exe_name, "firefox.exe");
    assert_eq!(info.exe_path, "c:\\firefox.exe");
}

#[test]
fn process_info_rejects_empty_name() {
    let result = ProcessInfo::new(1, "", "C:\\test.exe");
    assert!(result.is_err());
}

#[test]
fn process_info_rejects_empty_path() {
    let result = ProcessInfo::new(1, "test.exe", "");
    assert!(result.is_err());
}

#[test]
fn process_info_matches_case_insensitive() {
    let info = ProcessInfo::new(1, "firefox.exe", "C:\\Firefox.exe").unwrap();

    assert!(info.matches("Firefox.exe"));
    assert!(info.matches("FIREFOX.EXE"));
    assert!(info.matches("firefox.exe"));
    assert!(!info.matches("chrome.exe"));
}

#[test]
fn path_normalizer_converts_to_lowercase() {
    let normalized = PathNormalizer::normalize("C:\\PROGRAM FILES\\Firefox.EXE");
    assert_eq!(normalized, "c:\\program files\\firefox.exe");
}

#[test]
fn path_normalizer_normalizes_separators() {
    let normalized = PathNormalizer::normalize("C:/Program Files/Firefox.exe");
    assert_eq!(normalized, "c:\\program files\\firefox.exe");
}

#[test]
fn path_normalizer_removes_trailing_slash() {
    let normalized = PathNormalizer::normalize("C:\\Program Files\\");
    assert_eq!(normalized, "c:\\program files");

    let normalized = PathNormalizer::normalize("C:\\");
    assert_eq!(normalized, "c:\\");
}

#[test]
fn path_normalizer_extracts_filename() {
    let filename = PathNormalizer::filename("C:\\Program Files\\Firefox\\firefox.exe");
    assert!(filename.is_ok());
    assert_eq!(filename.unwrap(), "firefox.exe");
}

#[test]
fn path_normalizer_filename_handles_mixed_separators() {
    let filename = PathNormalizer::filename("C:/Program Files/Firefox/firefox.exe");
    assert!(filename.is_ok());
    assert_eq!(filename.unwrap(), "firefox.exe");
}

#[test]
fn process_matcher_finds_matching_processes() {
    let processes = vec![
        ProcessInfo::new(1, "firefox.exe", "C:\\Firefox.exe").unwrap(),
        ProcessInfo::new(2, "chrome.exe", "C:\\Chrome.exe").unwrap(),
        ProcessInfo::new(3, "FIREFOX.EXE", "C:\\Firefox2.exe").unwrap(),
    ];

    let matcher = ProcessMatcher::new("Firefox.exe");
    let matches = matcher.find_all(&processes);

    assert_eq!(matches.len(), 2);
    assert_eq!(matches[0].pid, 1);
    assert_eq!(matches[1].pid, 3);
}

#[test]
fn process_matcher_find_first() {
    let processes = vec![
        ProcessInfo::new(1, "chrome.exe", "C:\\Chrome.exe").unwrap(),
        ProcessInfo::new(2, "firefox.exe", "C:\\Firefox.exe").unwrap(),
    ];

    let matcher = ProcessMatcher::new("Firefox.exe");
    let first = matcher.find_first(&processes);

    assert!(first.is_some());
    assert_eq!(first.unwrap().pid, 2);
}

#[test]
fn process_matcher_find_first_none() {
    let processes = vec![ProcessInfo::new(1, "chrome.exe", "C:\\Chrome.exe").unwrap()];

    let matcher = ProcessMatcher::new("Firefox.exe");
    let first = matcher.find_first(&processes);

    assert!(first.is_none());
}

#[test]
fn process_query_mock_enumerate_returns_empty() {
    let result = ProcessQuery::enumerate_all();
    assert!(result.is_ok());
    let processes = result.unwrap();
    assert_eq!(processes.len(), 0);
}

#[test]
fn process_info_equality() {
    let info1 = ProcessInfo::new(123, "firefox.exe", "C:\\Firefox.exe").unwrap();
    let info2 = ProcessInfo::new(123, "FIREFOX.EXE", "C:\\firefox.exe").unwrap();

    assert_eq!(info1, info2);
}

#[test]
fn process_info_hash_consistent() {
    let info1 = ProcessInfo::new(123, "firefox.exe", "C:\\Firefox.exe").unwrap();
    let info2 = ProcessInfo::new(123, "FIREFOX.EXE", "C:\\firefox.exe").unwrap();

    let mut set = HashSet::new();
    set.insert(info1);
    set.insert(info2);

    assert_eq!(set.len(), 1);
}

#[test]
fn process_matcher_empty_list() {
    let matcher = ProcessMatcher::new("firefox.exe");
    let matches = matcher.find_all(&[]);
    assert_eq!(matches.len(), 0);
}

#[test]
fn process_info_multiple_instances() {
    let p1 = ProcessInfo::new(100, "firefox.exe", "C:\\Firefox.exe").unwrap();
    let p2 = ProcessInfo::new(101, "firefox.exe", "C:\\Firefox.exe").unwrap();
    let p3 = ProcessInfo::new(102, "firefox.exe", "C:\\Firefox.exe").unwrap();

    assert_eq!(p1.exe_name, p2.exe_name);
    assert_eq!(p1.exe_path, p2.exe_path);
    assert_ne!(p1.pid, p2.pid);
    assert_ne!(p2.pid, p3.pid);

    let processes = vec![p1, p2, p3];
    let matcher = ProcessMatcher::new("firefox.exe");
    let matches = matcher.find_all(&processes);

    assert_eq!(matches.len(), 3);
}

#[test]
fn blank_name_and_path_errors() {
    match ProcessInfo::new(1, " \t", "C:\\x.exe") {
        Err(LockError::PathNormalizationFailed { path, reason }) => {
            assert_eq!(path, " \t");
            assert_eq!(reason, "Executable name cannot be empty");
        }
        other => panic!("unexpected {:?}", other),
    }
    match ProcessInfo::new(1, "x.exe", "\u{3000}") {
        Err(LockError::PathNormalizationFailed { reason, .. }) => {
            assert_eq!(reason, "Executable path cannot be empty")
        }
        other => panic!("unexpected {:?}", other),
    }
}

#[test]
fn lowercasing_is_unicode_aware() {
    let info = ProcessInfo::new(5, "ÉDITEUR.EXE", "D:\\ÉDITEUR.EXE").unwrap();
    assert_eq!(info.exe_name, "éditeur.exe");
    assert!(info.matches("Éditeur.exe"));
}

#[test]
fn filename_edge_cases() {
    assert_eq!(PathNormalizer::filename("C:\\Apps\\Tool.EXE\\").unwrap(), "tool.exe");
    assert_eq!(PathNormalizer::filename("C:\\Apps\\tool.exe\\.").unwrap(), "tool.exe");
    assert_eq!(PathNormalizer::filename("C:tool.exe").unwrap(), "tool.exe");
    assert_eq!(PathNormalizer::filename("tool.exe").unwrap(), "tool.exe");
    for bad in ["", "C:", "C:\\", "\\\\", "C:\\Apps\\..", "."] {
        match PathNormalizer::filename(bad) {
            Err(LockError::PathNormalizationFailed { path, reason }) => {
                assert_eq!(path, bad);
                assert_eq!(reason, "Could not extract filename");
            }
            other => panic!("unexpected {:?} for {:?}", other, bad),
        }
    }
}

#[test]
fn normalize_counts_bytes_for_the_root_rule() {
    // Three characters but four bytes in UTF-8: the trailing separator goes.
    assert_eq!(PathNormalizer::normalize("é:/"), "é:");
    assert_eq!(PathNormalizer::normalize("c:/"), "c:\\");
    assert_eq!(PathNormalizer::normalize("a/b//"), "a\\b");
}

#[test]
fn normalize_drops_every_trailing_separator() {
    assert_eq!(PathNormalizer::normalize("C:/a//"), "c:\\a");
    assert_eq!(PathNormalizer::normalize("C:\\Program Files\\\\/"), "c:\\program files");
    assert_eq!(PathNormalizer::normalize("c://"), "c:\\");
    assert_eq!(PathNormalizer::normalize("//"), "\\\\");
    for p in ["C:/a//", "c://", "a/b//", "C:\\", "x", ""] {
        let once = PathNormalizer::normalize(p);
        assert_eq!(PathNormalizer::normalize(&once), once);
    }
}

#[test]
fn find_matching_reports_no_processes() {
    assert_eq!(ProcessQuery::find_matching("firefox.exe").unwrap().len(), 0);
    assert!(ProcessQuery::get_by_pid(42).unwrap().is_none());
}

#[test]
fn matcher_single_process() {
    let m = ProcessMatcher::new("NOTEPAD.exe");
    let p = ProcessInfo::new(9, "notepad.exe", "c:\\notepad.exe").unwrap();
    assert!(m.matches(&p));
    let q = ProcessInfo::new(9, "notepad2.exe", "c:\\notepad2.exe").unwrap();
    assert!(!m.matches(&q));
}

#[test]
fn filename_follows_windows_prefixes() {
    let name = |p: &str| PathNormalizer::filename(p).ok();
    assert_eq!(name("\\\\server\\share"), None);
    assert_eq!(name("\\\\server\\share\\"), None);
    assert_eq!(name("\\\\server\\share\\Apps\\Tool.exe"), Some("tool.exe".to_string()));
    assert_eq!(name("//server/share/Tool.exe"), Some("tool.exe".to_string()));
    assert_eq!(name("\\\\server"), Some("server".to_string()));
    assert_eq!(name("\\\\.\\COM1"), None);
    assert_eq!(name("\\\\.\\pipe\\Tool"), Some("tool".to_string()));
    assert_eq!(name("\\\\?\\UNC\\server\\share"), None);
    assert_eq!(name("\\\\?\\UNC\\server\\share\\Tool.exe"), Some("tool.exe".to_string()));
    assert_eq!(name("\\\\?\\C:"), None);
    assert_eq!(name("\\\\?\\C:\\Apps\\Tool.exe"), Some("tool.exe".to_string()));
    // In a verbatim path only `\` separates, and `.` is a component of its own.
    assert_eq!(name("\\\\?\\C:\\Apps/Tool.exe"), Some("apps/tool.exe".to_string()));
    assert_eq!(name("\\\\?\\C:\\Apps\\."), None);
    assert_eq!(name("\\\\?\\volume"), None);
}
