use prompt_to_ai::DiffLine;
use prompt_to_ai::FileChangeRecord;
use prompt_to_ai::append_record;
use prompt_to_ai::set_record;
use prompt_to_ai::RepositoryError;
use prompt_to_ai::StatusEntry;
use prompt_to_ai::StatusKind;
use prompt_to_ai::assemble_prompt;
use prompt_to_ai::build_change_report;
use prompt_to_ai::classify_status;
use prompt_to_ai::get_change_str;
use prompt_to_ai::get_change_str_at;
use prompt_to_ai::parse_diff_header;
use prompt_to_ai::temp_prompt_cleaner;

fn entry(path: &str, wt_new: bool, wt_modified: bool, wt_deleted: bool) -> StatusEntry {
    StatusEntry { path: path.to_string(), wt_new, wt_modified, wt_deleted }
}

fn line(origin: char, content: &str) -> DiffLine {
    DiffLine { origin, content: content.to_string() }
}

#[test]
fn test_get_change_str() {
    match get_change_str() {
        Ok(changes) => {
            println!("Changes:\n{}", changes);
        }
        Err(e) => {
            println!("Error: {}", e.message());
        }
    }
}

#[test]
fn one_untracked_file_gives_one_add_record() {
    let entries = vec![entry("a.txt", true, false, false)];
    let lines: Vec<DiffLine> = Vec::new();
    let report = build_change_report(&entries, &lines);
    assert_eq!(report, "Add a.txt\n");
}

#[test]
fn modified_file_record_carries_added_line() {
    let entries = vec![entry("f.txt", false, true, false)];
    let lines = vec![
        line('F', "diff --git a/f.txt b/f.txt\nindex 0000000..1111111 100644\n--- a/f.txt\n+++ b/f.txt\n"),
        line('H', "@@ -1 +1,2 @@\n"),
        line(' ', "old line\n"),
        line('+', "new line\n"),
    ];
    let report = build_change_report(&entries, &lines);
    let expected = "Modify f.txt\nH @@ -1 +1,2 @@\n  old line\n+ new line\n";
    assert_eq!(report, expected);
    let mut it = report.lines();
    assert_eq!(it.next(), Some("Modify f.txt"));
    assert!(report.lines().any(|l| l.starts_with("+ new line")));
}

#[test]
fn deleted_file_record_has_no_appended_lines() {
    let entries = vec![entry("gone.txt", false, false, true)];
    let lines: Vec<DiffLine> = Vec::new();
    let report = build_change_report(&entries, &lines);
    assert_eq!(report, "Delete gone.txt\n");
}

#[test]
fn building_twice_is_byte_identical() {
    let entries = vec![
        entry("a.txt", true, false, false),
        entry("b.txt", false, true, false),
    ];
    let lines = vec![
        line('F', "diff --git a/b.txt b/b.txt\n"),
        line('H', "@@ -1 +1,2 @@\n"),
        line('+', "more\n"),
    ];
    let first = build_change_report(&entries, &lines);
    let second = build_change_report(&entries, &lines);
    assert_eq!(first, second);
}

#[test]
fn path_with_two_hunks_appears_once_with_lines_in_order() {
    let entries = vec![entry("f.txt", false, true, false)];
    let lines = vec![
        line('F', "diff --git a/f.txt b/f.txt\n"),
        line('H', "@@ -1 +1 @@\n"),
        line('-', "first\n"),
        line('+', "First\n"),
        line('H', "@@ -9 +9 @@\n"),
        line('+', "tail\n"),
    ];
    let report = build_change_report(&entries, &lines);
    let expected = "Modify f.txt\nH @@ -1 +1 @@\n- first\n+ First\nH @@ -9 +9 @@\n+ tail\n";
    assert_eq!(report, expected);
    assert_eq!(report.matches("f.txt").count(), 1);
}

#[test]
fn unflagged_status_entry_is_excluded() {
    let entries = vec![
        entry("renamed.txt", false, false, false),
        entry("kept.txt", true, false, false),
    ];
    let lines: Vec<DiffLine> = Vec::new();
    let report = build_change_report(&entries, &lines);
    assert_eq!(report, "Add kept.txt\n");
}

#[test]
fn records_join_with_blank_line_between_files() {
    let entries = vec![
        entry("a.txt", true, false, false),
        entry("b.txt", false, false, true),
    ];
    let lines: Vec<DiffLine> = Vec::new();
    let report = build_change_report(&entries, &lines);
    assert_eq!(report, "Add a.txt\n\nDelete b.txt\n");
}

#[test]
fn status_precedence_prefers_add_then_modify() {
    assert_eq!(classify_status(&entry("x", true, true, true)), StatusKind::Added);
    assert_eq!(classify_status(&entry("x", false, true, true)), StatusKind::Modified);
    assert_eq!(classify_status(&entry("x", false, false, true)), StatusKind::Deleted);
    assert_eq!(classify_status(&entry("x", false, false, false)), StatusKind::Unknown);
}

#[test]
fn diff_lines_before_any_header_are_ignored() {
    let entries: Vec<StatusEntry> = Vec::new();
    let lines = vec![line('+', "stray\n"), line('H', "@@ -1 +1 @@\n")];
    let report = build_change_report(&entries, &lines);
    assert_eq!(report, "");
}

#[test]
fn diff_lines_between_header_and_hunk_are_ignored() {
    let entries: Vec<StatusEntry> = Vec::new();
    let lines = vec![
        line('F', "diff --git a/n.txt b/n.txt\n"),
        line(' ', "index 123..456\n"),
        line('H', "@@ -1 +1 @@\n"),
        line('+', "body\n"),
    ];
    let report = build_change_report(&entries, &lines);
    assert_eq!(report, "H @@ -1 +1 @@\n+ body\n");
}

#[test]
fn header_parse_takes_first_capture() {
    assert_eq!(
        parse_diff_header("diff --git a/foo.txt b/foo.txt"),
        Some("foo.txt".to_string())
    );
    assert_eq!(parse_diff_header("diff --git a/x b/y b/z"), Some("x".to_string()));
    assert_eq!(parse_diff_header("+++ b/foo.txt"), None);
    assert_eq!(parse_diff_header("diff --git a/nosep"), None);
    assert_eq!(
        parse_diff_header("noise diff --git a/p q b/p q"),
        Some("p q".to_string())
    );
}

#[test]
fn empty_repository_gives_empty_report() {
    let entries: Vec<StatusEntry> = Vec::new();
    let lines: Vec<DiffLine> = Vec::new();
    assert_eq!(build_change_report(&entries, &lines), "");
}

#[test]
fn header_parse_minimal_paths() {
    assert_eq!(parse_diff_header("diff --git a/a b/b"), Some("a".to_string()));
    assert_eq!(parse_diff_header("diff --git a/a b/"), None);
    assert_eq!(parse_diff_header(""), None);
}

#[test]
fn set_record_overwrites_and_append_record_accumulates() {
    let mut recs: Vec<FileChangeRecord> = Vec::new();
    let key = "k.txt".to_string();
    set_record(&mut recs, &key, "first\n".to_string());
    set_record(&mut recs, &key, "second\n".to_string());
    append_record(&mut recs, &key, "tail\n".to_string());
    assert_eq!(recs.len(), 1);
    assert_eq!(recs[0].path, "k.txt");
    assert_eq!(recs[0].text, "second\ntail\n");
    append_record(&mut recs, &"other".to_string(), "loose\n".to_string());
    assert_eq!(recs.len(), 2);
    assert_eq!(recs[1].text, "loose\n");
}

#[test]
fn prompt_wraps_report_and_language_request() {
    let english = assemble_prompt(false, "Add a.txt\n");
    assert!(english.starts_with("You are an AI assistant that creates commit messages.\n"));
    assert!(english.ends_with("\n\nChanges:\nAdd a.txt\n"));
    assert!(!english.contains("Please respond in Chinese"));
    let chinese = assemble_prompt(true, "Add a.txt\n");
    assert!(chinese.contains("Please respond in Chinese for the body of commit messages.\n"));
    assert!(chinese.ends_with("\n\nChanges:\nAdd a.txt\n"));
}

#[test]
fn error_messages_name_each_failure() {
    assert_eq!(
        RepositoryError::NotFound.message(),
        "failed to open the repository"
    );
    assert_eq!(
        RepositoryError::StatusQuery.message(),
        "failed to query the working-tree status"
    );
    assert_eq!(
        RepositoryError::DiffQuery.message(),
        "failed to compute the index-to-workdir diff"
    );
}

#[test]
fn opening_a_missing_path_is_not_found() {
    let r = get_change_str_at("/no/such/repository/anywhere");
    assert_eq!(r.err(), Some(RepositoryError::NotFound));
}

#[test]
fn cleaner_names_the_fallback_file() {
    let c = temp_prompt_cleaner();
    assert_eq!(c.path, ".commit_prompt.txt");
}
