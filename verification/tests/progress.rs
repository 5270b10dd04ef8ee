use media_import::progress::{count_progress_message, ProgressEvent, SkipReason};

#[test]
fn status_lines() {
    let skipped = ProgressEvent::Skipped {
        name: "/src/a.jpg".to_string(),
        reason: SkipReason::FileNotFound,
    };
    assert_eq!(skipped.message(), "Skipped: /src/a.jpg (file not found)");
    let skipped =
        ProgressEvent::Skipped { name: "a.jpg".to_string(), reason: SkipReason::AlreadyExists };
    assert_eq!(skipped.message(), "Skipped: a.jpg (already exists)");
    assert_eq!(ProgressEvent::Copying { name: "a.jpg".to_string() }.message(), "Copying: a.jpg");
    assert_eq!(ProgressEvent::Copied { name: "a.jpg".to_string() }.message(), "Copied: a.jpg");
    let failed =
        ProgressEvent::Failed { name: "a.jpg".to_string(), reason: "disk full".to_string() };
    assert_eq!(failed.message(), "Failed to copy a.jpg: disk full");
}

#[test]
fn byte_progress_line_is_machine_readable() {
    let line = ProgressEvent::ByteProgress { copied: 10, total: 30 }.message();
    assert_eq!(line, "PROGRESS_BYTES:10:30");
    let line = ProgressEvent::ByteProgress { copied: 0, total: 0 }.message();
    assert_eq!(line, "PROGRESS_BYTES:0:0");
    let line = ProgressEvent::ByteProgress { copied: u64::MAX, total: u64::MAX }.message();
    assert_eq!(line, "PROGRESS_BYTES:18446744073709551615:18446744073709551615");
}

#[test]
fn count_progress_line() {
    assert_eq!(count_progress_message(1, 12), "PROGRESS:1:12");
    assert_eq!(count_progress_message(12, 12), "PROGRESS:12:12");
}

#[test]
fn skip_reasons_in_words() {
    assert_eq!(SkipReason::FileNotFound.as_str(), "file not found");
    assert_eq!(SkipReason::AlreadyExists.as_str(), "already exists");
}
