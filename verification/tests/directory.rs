use media_import::directory::{
    importable_files, is_importable_file, DirectoryImport, ImportError, ImportPhase, ImportReply,
    ImportRequest,
};
use std::collections::BTreeSet;

fn strings(items: &[&str]) -> Vec<String> {
    items.iter().map(|s| s.to_string()).collect()
}

/// Runs an import to its end and hands back the lines that the reporter
/// took, the names copied, and the result.
fn run(
    found: &[&str],
    destination: &mut BTreeSet<String>,
    unwritable: &[&str],
    reporter_breaks_at: Option<usize>,
    destination_error: Option<&str>,
) -> (Vec<String>, Vec<String>, Result<(), ImportError>) {
    let mut import = DirectoryImport::new("/s".to_string(), "/d/".to_string());
    let mut lines = Vec::new();
    let mut copied = Vec::new();
    loop {
        let reply = match import.request() {
            ImportRequest::CreateDestination { path } => {
                assert_eq!(path, "/d/");
                ImportReply::Created(match destination_error {
                    Some(text) => Err(text.to_string()),
                    None => Ok(()),
                })
            }
            ImportRequest::ListFiles { root } => {
                assert_eq!(root, "/s");
                ImportReply::Listed(strings(found))
            }
            ImportRequest::ProbeTarget { path } => ImportReply::Exists(destination.contains(&path)),
            ImportRequest::Copy { source, target } => {
                if unwritable.contains(&target.as_str()) {
                    ImportReply::Copied(Err(format!("cannot copy {}", source)))
                } else {
                    destination.insert(target.clone());
                    copied.push(target);
                    ImportReply::Copied(Ok(()))
                }
            }
            ImportRequest::Report { line } => {
                if reporter_breaks_at == Some(lines.len()) {
                    ImportReply::Reported(Err("channel closed".to_string()))
                } else {
                    lines.push(line);
                    ImportReply::Reported(Ok(()))
                }
            }
            ImportRequest::Done { result } => return (lines, copied, result),
        };
        import.advance(reply);
    }
}

#[test]
fn importable_extensions() {
    for name in ["a.mp4", "a.jpg", "a.jpeg", "a.png", "a.mov", "a.heic", "A.JPG", "/x/y.Mp4"] {
        assert!(is_importable_file(name), "{}", name);
    }
    for name in ["a.gif", "a.avi", "a.mkv", "a.mp3", "a.wav", "a.txt", "a", ".jpg"] {
        assert!(!is_importable_file(name), "{}", name);
    }
    assert_eq!(
        importable_files(strings(&["/s/a.jpg", "/s/b.gif", "/s/c/d.MOV", "/s/e"])),
        strings(&["/s/a.jpg", "/s/c/d.MOV"])
    );
}

#[test]
fn imports_every_importable_file_and_counts() {
    let mut destination = BTreeSet::new();
    let found = ["/s/a.jpg", "/s/notes.txt", "/s/sub/b.mp4", "/s/c.png"];
    let (lines, copied, result) = run(&found, &mut destination, &[], None, None);
    assert_eq!(result, Ok(()));
    assert_eq!(copied, strings(&["/d/a.jpg", "/d/b.mp4", "/d/c.png"]));
    assert_eq!(
        lines,
        strings(&[
            "Copied: a.jpg",
            "PROGRESS:1:3",
            "Copied: b.mp4",
            "PROGRESS:2:3",
            "Copied: c.png",
            "PROGRESS:3:3",
        ])
    );
}

#[test]
fn files_already_there_are_passed_over_in_silence() {
    let mut destination = BTreeSet::new();
    destination.insert("/d/a.jpg".to_string());
    let found = ["/s/a.jpg", "/s/b.jpg", "/t/b.jpg"];
    let (lines, copied, result) = run(&found, &mut destination, &[], None, None);
    assert_eq!(result, Ok(()));
    assert_eq!(copied, strings(&["/d/b.jpg"]));
    assert_eq!(lines, strings(&["Copied: b.jpg", "PROGRESS:2:3"]));
}

#[test]
fn first_failed_copy_ends_the_import() {
    let mut destination = BTreeSet::new();
    let found = ["/s/a.jpg", "/s/b.jpg", "/s/c.jpg"];
    let (lines, copied, result) = run(&found, &mut destination, &["/d/b.jpg"], None, None);
    assert_eq!(result, Err(ImportError::CopyFailed("cannot copy /s/b.jpg".to_string())));
    assert_eq!(result.unwrap_err().message(), "cannot copy /s/b.jpg");
    assert_eq!(copied, strings(&["/d/a.jpg"]));
    assert_eq!(lines, strings(&["Copied: a.jpg", "PROGRESS:1:3"]));
}

#[test]
fn broken_reporter_ends_the_import() {
    let mut destination = BTreeSet::new();
    let found = ["/s/a.jpg", "/s/b.jpg"];
    let (lines, copied, result) = run(&found, &mut destination, &[], Some(1), None);
    assert_eq!(result, Err(ImportError::ReporterTransport("channel closed".to_string())));
    assert_eq!(copied, strings(&["/d/a.jpg"]));
    assert_eq!(lines, strings(&["Copied: a.jpg"]));
}

#[test]
fn destination_that_cannot_be_made_ends_the_import() {
    let mut destination = BTreeSet::new();
    let (lines, copied, result) = run(&["/s/a.jpg"], &mut destination, &[], None, Some("denied"));
    assert_eq!(result, Err(ImportError::DestinationUnavailable("denied".to_string())));
    assert!(lines.is_empty());
    assert!(copied.is_empty());
}

#[test]
fn nothing_to_import() {
    let mut destination = BTreeSet::new();
    let (lines, copied, result) = run(&["/s/a.txt"], &mut destination, &[], None, None);
    assert_eq!(result, Ok(()));
    assert!(lines.is_empty());
    assert!(copied.is_empty());
}

#[test]
fn import_ignores_replies_out_of_turn() {
    let mut import = DirectoryImport::new("/s".to_string(), "d".to_string());
    assert_eq!(import.phase(), ImportPhase::Creating);
    import.advance(ImportReply::Listed(strings(&["/s/a.jpg"])));
    import.advance(ImportReply::Exists(true));
    import.advance(ImportReply::Copied(Ok(())));
    import.advance(ImportReply::Reported(Err("x".to_string())));
    assert_eq!(import.request(), ImportRequest::CreateDestination { path: "d".to_string() });
    import.advance(ImportReply::Created(Ok(())));
    assert_eq!(import.request(), ImportRequest::ListFiles { root: "/s".to_string() });
    import.advance(ImportReply::Listed(strings(&["/s/a.jpg"])));
    assert_eq!(import.request(), ImportRequest::ProbeTarget { path: "d/a.jpg".to_string() });
    import.advance(ImportReply::Copied(Ok(())));
    assert_eq!(import.phase(), ImportPhase::ProbingTarget);
    import.advance(ImportReply::Exists(false));
    assert_eq!(
        import.request(),
        ImportRequest::Copy { source: "/s/a.jpg".to_string(), target: "d/a.jpg".to_string() }
    );
}
