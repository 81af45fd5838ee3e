use friday::infra::logging::{cleanup_old_logs, export_session_logs, sorted_logs, LogFile, KEEP_DAYS};

const DAY: u64 = 86_400 * 1_000_000_000;
const NOW: u64 = 20_000 * DAY;

fn log(name: &str, text: &str) -> LogFile {
    LogFile { name: name.to_string(), bytes: text.as_bytes().to_vec() }
}

#[test]
fn test_cleanup_old_logs_removes_old_files() {
    assert_eq!(cleanup_old_logs(&vec![Some(NOW - 10 * DAY)], NOW, 7), vec![0]);
}

#[test]
fn test_cleanup_old_logs_keeps_recent_files() {
    assert!(cleanup_old_logs(&vec![Some(NOW)], NOW, 7).is_empty());
}

#[test]
fn test_cleanup_old_logs_keeps_within_7_days() {
    assert!(cleanup_old_logs(&vec![Some(NOW - 5 * DAY)], NOW, 7).is_empty());
}

#[test]
fn old_logs_are_found_among_others_and_the_limit_is_kept() {
    assert_eq!(KEEP_DAYS, 7);
    let files = vec![
        None,
        Some(NOW - 7 * DAY),
        Some(NOW - 7 * DAY - 1),
        Some(NOW + DAY),
        Some(0),
    ];
    assert_eq!(cleanup_old_logs(&files, NOW, 7), vec![2, 4]);
}

#[test]
fn test_export_session_logs_filters_matching_lines_across_files() {
    let files = vec![
        log(
            "friday.log.2026-09-08",
            "INFO line for s-one\nINFO unrelated line\nWARN s-one again\n",
        ),
        log("friday.log.2026-09-09", "ERROR s-one crashed\nINFO another session s-two\n"),
    ];
    let (content, result) = export_session_logs(files, "/export/session-logs.log", "s-one");
    assert_eq!(result.files_scanned, 2);
    assert_eq!(result.line_count, 3);
    assert_eq!(result.path, "/export/session-logs.log");
    assert_eq!(
        String::from_utf8(content).unwrap(),
        "INFO line for s-one\nWARN s-one again\nERROR s-one crashed\n"
    );
}

#[test]
fn test_export_session_logs_ignores_non_friday_files() {
    let files = vec![
        log("friday.log.2026-09-09", "INFO s-one line\n"),
        log("other.log", "INFO s-one should be ignored\n"),
    ];
    let (content, result) = export_session_logs(files, "/export/session-logs.log", "s-one");
    assert_eq!(result.files_scanned, 1);
    assert_eq!(result.line_count, 1);
    assert_eq!(String::from_utf8(content).unwrap(), "INFO s-one line\n");
}

#[test]
fn test_export_session_logs_zero_matches_writes_empty_file() {
    let files = vec![log("friday.log.2026-09-09", "INFO s-two line\n")];
    let (content, result) = export_session_logs(files, "/export/session-logs.log", "s-one");
    assert_eq!(result.files_scanned, 1);
    assert_eq!(result.line_count, 0);
    assert_eq!(String::from_utf8(content).unwrap(), "");
}

#[test]
fn test_export_session_logs_reads_files_in_name_order() {
    let files = vec![
        log("friday.log.2026-09-09", "INFO s-one day2\n"),
        log("friday.log.2026-09-08", "INFO s-one day1\n"),
    ];
    let (content, _) = export_session_logs(files, "/export/session-logs.log", "s-one");
    assert_eq!(String::from_utf8(content).unwrap(), "INFO s-one day1\nINFO s-one day2\n");
}

#[test]
fn logs_come_in_the_order_of_their_names() {
    let files = vec![log("friday.log.b", ""), log("friday.log.a", ""), log("friday.log.c", "")];
    let names: Vec<String> = sorted_logs(files).into_iter().map(|f| f.name).collect();
    assert_eq!(names, vec!["friday.log.a", "friday.log.b", "friday.log.c"]);
}

#[test]
fn lines_are_searched_as_text_and_written_as_they_are() {
    let mut file = log("friday.log.x", "s-one ");
    file.bytes.push(0xff);
    file.bytes.extend_from_slice(b" end\r\nplain\nlast s-one");
    let whole = file.bytes.clone();
    let (content, result) = export_session_logs(vec![file], "/x", "s-one \u{fffd} end");
    assert_eq!(result.line_count, 1);
    assert_eq!(content, whole[..13].to_vec());
    let again = LogFile { name: "friday.log.x".to_string(), bytes: whole.clone() };
    let (content, result) = export_session_logs(vec![again], "/x", "last");
    assert_eq!(result.line_count, 1);
    assert_eq!(content, b"last s-one".to_vec());
}
