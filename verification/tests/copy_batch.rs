use media_import::copy::{CopyBatch, CopyError, CopyReply, CopyRequest, Phase};
use media_import::progress::{ProgressEvent, SkipReason};
use std::collections::{BTreeMap, BTreeSet};

/// A file system to run a batch against.
struct World {
    sources: BTreeMap<String, u64>,
    destination: BTreeSet<String>,
    unwritable: BTreeSet<String>,
    vanishing: BTreeSet<String>,
    reporter_breaks_at: Option<usize>,
    destination_error: Option<String>,
}

impl World {
    fn new(sources: &[(&str, u64)]) -> World {
        World {
            sources: sources.iter().map(|(p, s)| (p.to_string(), *s)).collect(),
            destination: BTreeSet::new(),
            unwritable: BTreeSet::new(),
            vanishing: BTreeSet::new(),
            reporter_breaks_at: None,
            destination_error: None,
        }
    }
}

/// Runs the batch to its end and hands back the events that the reporter
/// took, the requests made, and the result.
fn run(
    world: &mut World,
    paths: &[&str],
) -> (Vec<ProgressEvent>, Vec<CopyRequest>, Result<(), CopyError>, CopyBatch) {
    let mut batch =
        CopyBatch::new(paths.iter().map(|p| p.to_string()).collect(), "/dest".to_string());
    let mut events = Vec::new();
    let mut requests = Vec::new();
    loop {
        let request = batch.request();
        let reply = match &request {
            CopyRequest::CreateDestination { path } => {
                assert_eq!(path, "/dest");
                CopyReply::Created(match &world.destination_error {
                    Some(text) => Err(text.clone()),
                    None => Ok(()),
                })
            }
            CopyRequest::StatSource { path } => CopyReply::Size(world.sources.get(path).copied()),
            CopyRequest::ProbeSource { path } => CopyReply::Exists(
                world.sources.contains_key(path) && !world.vanishing.contains(path),
            ),
            CopyRequest::ProbeTarget { path } => CopyReply::Exists(world.destination.contains(path)),
            CopyRequest::Report { event } => {
                if world.reporter_breaks_at == Some(events.len()) {
                    CopyReply::Reported(Err("channel closed".to_string()))
                } else {
                    events.push(clone_event(event));
                    CopyReply::Reported(Ok(()))
                }
            }
            CopyRequest::Transfer { source, target, size, copied, total } => {
                assert_eq!(world.sources.get(source), Some(size));
                assert_eq!(*copied, batch.copied_bytes());
                assert_eq!(*total, batch.total_bytes());
                if world.unwritable.contains(target) {
                    CopyReply::Transferred(Err("permission denied".to_string()))
                } else {
                    world.destination.insert(target.clone());
                    CopyReply::Transferred(Ok(()))
                }
            }
            CopyRequest::Done { result } => {
                let result = match result {
                    Ok(()) => Ok(()),
                    Err(CopyError::DestinationUnavailable(t)) => {
                        Err(CopyError::DestinationUnavailable(t.clone()))
                    }
                    Err(CopyError::ReporterTransport(t)) => {
                        Err(CopyError::ReporterTransport(t.clone()))
                    }
                };
                requests.push(request);
                return (events, requests, result, batch);
            }
        };
        requests.push(request);
        assert!(batch.accepts(&reply));
        let before = batch.copied_bytes();
        batch.advance(reply);
        assert!(before <= batch.copied_bytes());
        assert!(batch.copied_bytes() <= batch.total_bytes());
    }
}

fn clone_event(event: &ProgressEvent) -> ProgressEvent {
    match event {
        ProgressEvent::Skipped { name, reason } => {
            ProgressEvent::Skipped { name: name.clone(), reason: *reason }
        }
        ProgressEvent::Copying { name } => ProgressEvent::Copying { name: name.clone() },
        ProgressEvent::Copied { name } => ProgressEvent::Copied { name: name.clone() },
        ProgressEvent::Failed { name, reason } => {
            ProgressEvent::Failed { name: name.clone(), reason: reason.clone() }
        }
        ProgressEvent::ByteProgress { copied, total } => {
            ProgressEvent::ByteProgress { copied: *copied, total: *total }
        }
    }
}

fn lines(events: &[ProgressEvent]) -> Vec<String> {
    events.iter().map(|e| e.message()).collect()
}

fn copying(name: &str) -> ProgressEvent {
    ProgressEvent::Copying { name: name.to_string() }
}

fn copied(name: &str) -> ProgressEvent {
    ProgressEvent::Copied { name: name.to_string() }
}

fn bytes(copied: u64, total: u64) -> ProgressEvent {
    ProgressEvent::ByteProgress { copied, total }
}

fn in_place(name: &str) -> ProgressEvent {
    ProgressEvent::Skipped { name: name.to_string(), reason: SkipReason::AlreadyExists }
}

fn missing(path: &str) -> ProgressEvent {
    ProgressEvent::Skipped { name: path.to_string(), reason: SkipReason::FileNotFound }
}

#[test]
fn three_files_with_the_second_missing() {
    let mut world = World::new(&[("/src/f1.jpg", 10), ("/src/f3.jpg", 20)]);
    let paths = ["/src/f1.jpg", "/src/f2.jpg", "/src/f3.jpg"];
    let (events, requests, result, batch) = run(&mut world, &paths);
    assert_eq!(result, Ok(()));
    assert_eq!(batch.total_bytes(), 30);
    assert_eq!(batch.copied_bytes(), 30);
    assert_eq!(
        events,
        vec![
            copying("f1.jpg"),
            copied("f1.jpg"),
            bytes(10, 30),
            missing("/src/f2.jpg"),
            copying("f3.jpg"),
            copied("f3.jpg"),
            bytes(30, 30),
        ]
    );
    assert_eq!(
        lines(&events),
        vec![
            "Copying: f1.jpg",
            "Copied: f1.jpg",
            "PROGRESS_BYTES:10:30",
            "Skipped: /src/f2.jpg (file not found)",
            "Copying: f3.jpg",
            "Copied: f3.jpg",
            "PROGRESS_BYTES:30:30",
        ]
    );
    assert_eq!(requests[0], CopyRequest::CreateDestination { path: "/dest".to_string() });
    assert_eq!(requests[1], CopyRequest::StatSource { path: "/src/f1.jpg".to_string() });
    assert_eq!(requests[2], CopyRequest::StatSource { path: "/src/f2.jpg".to_string() });
    assert_eq!(requests[3], CopyRequest::StatSource { path: "/src/f3.jpg".to_string() });
    assert_eq!(requests[4], CopyRequest::ProbeSource { path: "/src/f1.jpg".to_string() });
    assert_eq!(requests[5], CopyRequest::ProbeTarget { path: "/dest/f1.jpg".to_string() });
    assert_eq!(
        requests[7],
        CopyRequest::Transfer {
            source: "/src/f1.jpg".to_string(),
            target: "/dest/f1.jpg".to_string(),
            size: 10,
            copied: 0,
            total: 30
        }
    );
    assert_eq!(requests.last(), Some(&CopyRequest::Done { result: Ok(()) }));
}

#[test]
fn second_run_skips_every_file_as_already_there() {
    let mut world = World::new(&[("/a/x.jpg", 5), ("/a/y.mp4", 7), ("/b/z.png", 0)]);
    let paths = ["/a/x.jpg", "/a/y.mp4", "/b/z.png"];
    let (first, _, result, _) = run(&mut world, &paths);
    assert_eq!(result, Ok(()));
    assert_eq!(first.len(), 9);
    let (second, _, result, batch) = run(&mut world, &paths);
    assert_eq!(result, Ok(()));
    assert_eq!(
        second,
        vec![
            in_place("x.jpg"),
            bytes(5, 12),
            in_place("y.mp4"),
            bytes(12, 12),
            in_place("z.png"),
            bytes(12, 12),
        ]
    );
    assert_eq!(batch.copied_bytes(), batch.total_bytes());
}

#[test]
fn skipped_file_still_advances_the_byte_count() {
    let mut world = World::new(&[("/a/x.jpg", 100), ("/a/y.jpg", 50)]);
    world.destination.insert("/dest/x.jpg".to_string());
    let (events, _, _, batch) = run(&mut world, &["/a/x.jpg", "/a/y.jpg"]);
    assert_eq!(
        events,
        vec![in_place("x.jpg"), bytes(100, 150), copying("y.jpg"), copied("y.jpg"), bytes(150, 150)]
    );
    assert_eq!(batch.copied_bytes(), 150);
}

#[test]
fn missing_file_is_skipped_once_and_counts_nothing() {
    let mut world = World::new(&[]);
    let (events, requests, result, batch) = run(&mut world, &["/gone/a.jpg"]);
    assert_eq!(result, Ok(()));
    assert_eq!(events, vec![missing("/gone/a.jpg")]);
    assert_eq!(batch.total_bytes(), 0);
    assert_eq!(batch.copied_bytes(), 0);
    assert!(!requests.iter().any(|r| matches!(r, CopyRequest::ProbeTarget { .. })));
}

#[test]
fn file_that_vanishes_after_sizing_leaves_the_count_short() {
    let mut world = World::new(&[("/a/x.jpg", 10), ("/a/y.jpg", 20)]);
    world.vanishing.insert("/a/x.jpg".to_string());
    let (events, _, result, batch) = run(&mut world, &["/a/x.jpg", "/a/y.jpg"]);
    assert_eq!(result, Ok(()));
    assert_eq!(
        events,
        vec![missing("/a/x.jpg"), copying("y.jpg"), copied("y.jpg"), bytes(20, 30)]
    );
    assert_eq!(batch.copied_bytes(), 20);
    assert_eq!(batch.total_bytes(), 30);
}

#[test]
fn failed_copy_is_reported_and_the_batch_goes_on() {
    let mut world = World::new(&[("/a/x.jpg", 10), ("/a/y.jpg", 20)]);
    world.unwritable.insert("/dest/x.jpg".to_string());
    let (events, _, result, batch) = run(&mut world, &["/a/x.jpg", "/a/y.jpg"]);
    assert_eq!(result, Ok(()));
    assert_eq!(
        events,
        vec![
            copying("x.jpg"),
            ProgressEvent::Failed {
                name: "x.jpg".to_string(),
                reason: "permission denied".to_string()
            },
            bytes(0, 30),
            copying("y.jpg"),
            copied("y.jpg"),
            bytes(20, 30),
        ]
    );
    assert_eq!(lines(&events)[1], "Failed to copy x.jpg: permission denied");
    assert_eq!(batch.copied_bytes(), 20);
}

#[test]
fn same_name_from_two_directories_is_copied_once() {
    let mut world = World::new(&[("/a/x.jpg", 10), ("/b/x.jpg", 20)]);
    let (events, _, result, _) = run(&mut world, &["/a/x.jpg", "/b/x.jpg"]);
    assert_eq!(result, Ok(()));
    assert_eq!(
        events,
        vec![copying("x.jpg"), copied("x.jpg"), bytes(10, 30), in_place("x.jpg"), bytes(30, 30)]
    );
}

#[test]
fn destination_that_cannot_be_created_ends_the_batch() {
    let mut world = World::new(&[("/a/x.jpg", 10)]);
    world.destination_error = Some("read-only file system".to_string());
    let (events, requests, result, _) = run(&mut world, &["/a/x.jpg"]);
    assert_eq!(
        result,
        Err(CopyError::DestinationUnavailable("read-only file system".to_string()))
    );
    assert_eq!(result.unwrap_err().message(), "read-only file system");
    assert!(events.is_empty());
    assert_eq!(requests.len(), 2);
}

#[test]
fn reporter_that_breaks_ends_the_batch() {
    let mut world = World::new(&[("/a/x.jpg", 10), ("/a/y.jpg", 20)]);
    world.reporter_breaks_at = Some(2);
    let (events, requests, result, batch) = run(&mut world, &["/a/x.jpg", "/a/y.jpg"]);
    assert_eq!(result, Err(CopyError::ReporterTransport("channel closed".to_string())));
    assert_eq!(events, vec![copying("x.jpg"), copied("x.jpg")]);
    assert!(!requests.iter().any(|r| matches!(r, CopyRequest::ProbeSource { path } if path == "/a/y.jpg")));
    assert_eq!(batch.phase(), Phase::Finished);
}

#[test]
fn empty_batch_only_creates_the_destination() {
    let mut world = World::new(&[]);
    let (events, requests, result, batch) = run(&mut world, &[]);
    assert_eq!(result, Ok(()));
    assert!(events.is_empty());
    assert_eq!(
        requests,
        vec![
            CopyRequest::CreateDestination { path: "/dest".to_string() },
            CopyRequest::Done { result: Ok(()) }
        ]
    );
    assert_eq!(batch.total_bytes(), 0);
}

#[test]
fn targets_lie_in_the_destination_itself() {
    let mut world = World::new(&[("/a/b/c/x.jpg", 1), ("y.jpg", 2), ("/a/b/", 3)]);
    let (_, requests, _, _) = run(&mut world, &["/a/b/c/x.jpg", "y.jpg", "/a/b/"]);
    let targets: Vec<&str> = requests
        .iter()
        .filter_map(|r| match r {
            CopyRequest::ProbeTarget { path } => Some(path.as_str()),
            _ => None,
        })
        .collect();
    assert_eq!(targets, vec!["/dest/x.jpg", "/dest/y.jpg", "/dest/b"]);
}

#[test]
fn path_without_a_file_name_is_stored_as_unknown() {
    let mut world = World::new(&[("/", 3)]);
    let (events, _, _, _) = run(&mut world, &["/"]);
    assert_eq!(events, vec![copying("unknown"), copied("unknown"), bytes(3, 3)]);
}

#[test]
fn reply_that_answers_another_request_is_ignored() {
    let mut batch = CopyBatch::new(vec!["/a/x.jpg".to_string()], "/dest".to_string());
    batch.advance(CopyReply::Exists(true));
    batch.advance(CopyReply::Size(Some(4)));
    batch.advance(CopyReply::Reported(Ok(())));
    batch.advance(CopyReply::Transferred(Ok(())));
    assert_eq!(batch.phase(), Phase::Creating);
    assert_eq!(batch.total_bytes(), 0);
    batch.advance(CopyReply::Created(Ok(())));
    assert_eq!(batch.phase(), Phase::Sizing);
    batch.advance(CopyReply::Created(Ok(())));
    batch.advance(CopyReply::Exists(false));
    assert_eq!(batch.phase(), Phase::Sizing);
    batch.advance(CopyReply::Size(Some(4)));
    assert_eq!(batch.phase(), Phase::ProbingSource);
    batch.advance(CopyReply::Size(Some(4)));
    assert_eq!(batch.total_bytes(), 4);
    batch.advance(CopyReply::Reported(Err("x".to_string())));
    assert_eq!(batch.phase(), Phase::ProbingSource);
}

#[test]
fn size_that_would_overflow_the_total_is_not_accepted() {
    let mut batch = CopyBatch::new(vec!["/a".to_string(), "/b".to_string()], "d".to_string());
    batch.advance(CopyReply::Created(Ok(())));
    batch.advance(CopyReply::Size(Some(u64::MAX - 1)));
    assert!(batch.accepts(&CopyReply::Size(Some(1))));
    assert!(batch.accepts(&CopyReply::Size(None)));
    assert!(!batch.accepts(&CopyReply::Size(Some(2))));
    assert!(batch.accepts(&CopyReply::Exists(true)));
}
